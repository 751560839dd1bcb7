use vstd::prelude::*;
use crate::backend::{MinerBackend, classification, classify};
use crate::envelope::{ProbeError, envelope_of, is_success_code, parse_result};

verus! {

/// The TCP port of the management protocol.
pub const MANAGEMENT_PORT: u16 = 4028;

/// The two queries a device is asked.
#[derive(Debug, Clone, Copy, PartialEq, Eq, Structural)]
pub enum Command {
    DevDetails,
    Version,
}

/// The name of a command on the wire.
pub open spec fn command_name(c: Command) -> Seq<char> {
    match c {
        Command::DevDetails => "devdetails"@,
        Command::Version => "version"@,
    }
}

/// The request that carries a command: `{"command":"<name>"}`.
pub open spec fn command_frame(c: Command) -> Seq<char> {
    "{\"command\":\""@ + command_name(c) + "\"}"@
}

impl Command {
    /// The name of this command on the wire.
    pub fn name(&self) -> (r: &'static str)
        ensures
            r@ == command_name(*self),
    {
        match self {
            Command::DevDetails => "devdetails",
            Command::Version => "version",
        }
    }

    /// The request to send for this command.
    pub fn frame(&self) -> (r: String)
        ensures
            r@ == command_frame(*self),
    {
        let mut s = String::from_str("{\"command\":\"");
        s.append(self.name());
        s.append("\"}");
        s
    }
}

/// The vote of one checked reply: its classification, or none where the
/// query failed.
pub open spec fn vote_of(reply: Result<String, ProbeError>) -> Option<MinerBackend> {
    match reply {
        Ok(t) => Some(classification(t@)),
        Err(_) => None,
    }
}

/// Turns a checked reply into a vote.
pub fn vote(reply: Result<String, ProbeError>) -> (r: Option<MinerBackend>)
    ensures
        r == vote_of(reply),
{
    match reply {
        Ok(text) => Some(classify(text.as_str())),
        Err(_) => None,
    }
}

/// The vote of one raw query outcome: the classification of the raw reply
/// where its envelope carries a success code, else none.
pub open spec fn checked_vote(raw: Result<String, ProbeError>) -> Option<MinerBackend> {
    match raw {
        Ok(t) => match envelope_of(t@) {
            Some(env) => if is_success_code(env.code) {
                Some(classification(t@))
            } else {
                None
            },
            None => None,
        },
        Err(_) => None,
    }
}

/// Checks one raw query outcome and classifies it.
pub fn probe_vote(raw: Result<String, ProbeError>) -> (r: Option<MinerBackend>)
    ensures
        r == checked_vote(raw),
{
    match raw {
        Ok(text) => vote(parse_result(text)),
        Err(_) => None,
    }
}

/// The verdict from the two votes: a recognised devdetails vote first, then
/// any version vote, then an `Unknown` devdetails vote.
pub open spec fn merged(devdetails: Option<MinerBackend>, version: Option<MinerBackend>) -> Option<
    MinerBackend,
> {
    if devdetails is Some && devdetails != Some(MinerBackend::Unknown) {
        devdetails
    } else if version is Some {
        version
    } else {
        devdetails
    }
}

/// Merges the devdetails and version votes into one verdict.
pub fn merge_votes(devdetails: Option<MinerBackend>, version: Option<MinerBackend>) -> (r: Option<
    MinerBackend,
>)
    ensures
        r == merged(devdetails, version),
{
    if devdetails.is_some() && devdetails != Some(MinerBackend::Unknown) {
        devdetails
    } else if version.is_some() {
        version
    } else {
        devdetails
    }
}

/// The verdict is absent exactly when neither query gave a vote.
pub proof fn lemma_no_verdict_iff_no_votes(
    devdetails: Option<MinerBackend>,
    version: Option<MinerBackend>,
)
    ensures
        merged(devdetails, version) is None <==> (devdetails is None && version is None),
{
}

/// A recognised devdetails vote decides, whatever the version vote is.
pub proof fn lemma_recognised_devdetails_wins(
    devdetails: MinerBackend,
    version: Option<MinerBackend>,
)
    requires
        devdetails != MinerBackend::Unknown,
    ensures
        merged(Some(devdetails), version) == Some(devdetails),
{
}

/// The verdict from the raw outcomes of the devdetails and version queries;
/// a failure of either only takes away that query's vote.
pub fn resolve_backend(devdetails: Result<String, ProbeError>, version: Result<String, ProbeError>) -> (r:
    Option<MinerBackend>)
    ensures
        r == merged(checked_vote(devdetails), checked_vote(version)),
{
    let dv = probe_vote(devdetails);
    let vv = probe_vote(version);
    merge_votes(dv, vv)
}

} // verus!
