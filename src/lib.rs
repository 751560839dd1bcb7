//! Identifies the firmware backend of a mining device from the replies it
//! gives on its management port.

pub mod backend;
pub mod json_api;
pub mod envelope;
pub mod detect;

pub use backend::{MinerBackend, _parse_miner_backend};
