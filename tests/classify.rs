use miner_detect::backend::{_parse_miner_backend, classify, MinerBackend};

#[test]
fn btminer_in_any_case_is_whatsminer() {
    assert_eq!(classify("BTMINER"), MinerBackend::WhatsMiner);
    assert_eq!(classify("btminer"), MinerBackend::WhatsMiner);
    assert_eq!(classify("{\"Type\":\"BtMiner-3.1\"}"), MinerBackend::WhatsMiner);
}

#[test]
fn btminer_wins_over_later_rules_wherever_it_stands() {
    assert_eq!(classify("bosminer vnish hiveon btminer"), MinerBackend::WhatsMiner);
    assert_eq!(classify("luxminer antminer avalon bitmicro"), MinerBackend::WhatsMiner);
}

#[test]
fn first_rule_in_order_wins() {
    assert_eq!(classify("hiveon vnish"), MinerBackend::VNish);
    assert_eq!(classify("antminer luxminer"), MinerBackend::LuxOS);
    assert_eq!(classify("avalon antminer"), MinerBackend::AntMiner);
    assert_eq!(classify("avalon intchains_qomo"), MinerBackend::Goldshell);
    assert_eq!(classify("boser hiveon"), MinerBackend::BraiinsOS);
}

#[test]
fn each_signature_names_its_backend() {
    assert_eq!(classify("BITMICRO"), MinerBackend::WhatsMiner);
    assert_eq!(classify("boser"), MinerBackend::BraiinsOS);
    assert_eq!(classify("BOSminer"), MinerBackend::BraiinsOS);
    assert_eq!(classify("vnish"), MinerBackend::VNish);
    assert_eq!(classify("Hiveon"), MinerBackend::Hiveon);
    assert_eq!(classify("LuxMiner"), MinerBackend::LuxOS);
    assert_eq!(classify("Antminer S19"), MinerBackend::AntMiner);
    assert_eq!(classify("intchains_qomo"), MinerBackend::Goldshell);
    assert_eq!(classify("AvalonMiner 1246"), MinerBackend::AvalonMiner);
    assert_eq!(classify("cgminer 4.9"), MinerBackend::Unknown);
}

#[test]
fn antminer_with_devdetails_is_not_antminer() {
    assert_ne!(classify("ANTMINER DEVDETAILS RESPONSE"), MinerBackend::AntMiner);
    assert_eq!(classify("ANTMINER DEVDETAILS RESPONSE"), MinerBackend::Unknown);
    assert_eq!(classify("antminer devdetails"), MinerBackend::Unknown);
    assert_eq!(classify("ANTMINER FIRMWARE X17"), MinerBackend::AntMiner);
}

#[test]
fn empty_text_is_unknown() {
    assert_eq!(classify(""), MinerBackend::Unknown);
    assert_eq!(_parse_miner_backend(""), Some(MinerBackend::Unknown));
}

#[test]
fn parse_miner_backend_matches_upper_case_only() {
    assert_eq!(_parse_miner_backend("ANTMINER S9"), Some(MinerBackend::AntMiner));
    assert_eq!(_parse_miner_backend("antminer s9"), Some(MinerBackend::Unknown));
    assert_eq!(classify("antminer s9"), MinerBackend::AntMiner);
}

#[test]
fn repeated_classification_agrees() {
    let text = "{\"STATUS\":[{\"STATUS\":\"S\"}],\"VERSION\":[{\"Type\":\"Antminer S19\"}]}";
    let first = classify(text);
    for _ in 0..5 {
        assert_eq!(classify(text), first);
    }
    assert_eq!(first, MinerBackend::AntMiner);
}
