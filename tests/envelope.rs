use miner_detect::envelope::{is_success, long_digit_run, parse_result, strip_nul, ProbeError};

#[test]
fn success_with_nuls_hands_on_the_raw_text() {
    let raw = String::from("\0{\"STATUS\":[{\"STATUS\":\"S\"}]}\0\0");
    assert_eq!(parse_result(raw.clone()), Ok(raw));
    let inner = String::from("{\"STATUS\":[{\"STA\0TUS\":\"S\"}]}");
    assert_eq!(parse_result(inner.clone()), Ok(inner));
}

#[test]
fn informational_code_is_success() {
    let raw = String::from("{\"STATUS\":[{\"STATUS\":\"I\",\"Msg\":\"note\"}],\"Msg\":\"x\"}");
    assert_eq!(parse_result(raw.clone()), Ok(raw));
}

#[test]
fn nested_message_is_reported() {
    let raw = String::from("{\"STATUS\":[{\"STATUS\":\"E\",\"Msg\":\"bad cmd\"}]}");
    assert_eq!(parse_result(raw), Err(ProbeError::Rejected(String::from("bad cmd"))));
}

#[test]
fn top_level_message_takes_precedence() {
    let raw = String::from("{\"STATUS\":[{\"STATUS\":\"E\"}],\"Msg\":\"top-level error\"}");
    assert_eq!(parse_result(raw), Err(ProbeError::Rejected(String::from("top-level error"))));
    let both = String::from("{\"STATUS\":[{\"STATUS\":\"E\",\"Msg\":\"inner\"}],\"Msg\":\"outer\"}");
    assert_eq!(parse_result(both), Err(ProbeError::Rejected(String::from("outer"))));
}

#[test]
fn failure_without_message_reports_null() {
    let raw = String::from("{\"STATUS\":[{\"STATUS\":\"E\"}]}");
    assert_eq!(parse_result(raw), Err(ProbeError::Rejected(String::from("null"))));
}

#[test]
fn malformed_replies_are_parse_failures() {
    assert_eq!(parse_result(String::from("not json")), Err(ProbeError::Malformed));
    assert_eq!(parse_result(String::new()), Err(ProbeError::Malformed));
    assert_eq!(parse_result(String::from("{\"Msg\":\"x\"}")), Err(ProbeError::Malformed));
    assert_eq!(parse_result(String::from("{\"STATUS\":[]}")), Err(ProbeError::Malformed));
    assert_eq!(parse_result(String::from("{\"STATUS\":\"S\"}")), Err(ProbeError::Malformed));
}

#[test]
fn strip_nul_removes_every_nul() {
    assert_eq!(strip_nul("a\0b\0\0c\0"), "abc");
    assert_eq!(strip_nul("\0\0"), "");
    assert_eq!(strip_nul("plain"), "plain");
    assert_eq!(strip_nul(""), "");
}

#[test]
fn success_codes() {
    assert!(is_success(&String::from("S")));
    assert!(is_success(&String::from("I")));
    assert!(!is_success(&String::from("E")));
    assert!(!is_success(&String::from("SS")));
    assert!(!is_success(&String::from("s")));
    assert!(!is_success(&String::new()));
}

#[test]
fn nuls_anywhere_in_a_success_reply() {
    let raw = String::from("\0{\"STATUS\":[{\"STA") + "\0" + "TUS\":\"S\"}]}" + "\0\0";
    assert_eq!(parse_result(raw.clone()), Ok(raw));
}

#[test]
fn informational_code_alone_is_success() {
    let raw = String::from("{\"STATUS\":[{\"STATUS\":\"I\",\"Msg\":\"info\"}]}");
    assert_eq!(parse_result(raw.clone()), Ok(raw));
}

#[test]
fn lowercase_code_is_a_failure() {
    let raw = String::from("{\"STATUS\":[{\"STATUS\":\"s\",\"Msg\":\"m\"}]}");
    assert_eq!(parse_result(raw), Err(ProbeError::Rejected(String::from("m"))));
}

#[test]
fn sibling_keys_are_ignored() {
    let raw = String::from(
        "{\"STATUS\":[{\"STATUS\":\"S\",\"Msg\":\"ok\"}],\"VERSION\":[{\"BMMiner\":\"1.0\"}],\"id\":1}",
    );
    assert_eq!(parse_result(raw.clone()), Ok(raw));
}

#[test]
fn missing_status_code_is_malformed() {
    assert_eq!(parse_result(String::from("{\"STATUS\":[{\"Msg\":\"x\"}]}")), Err(ProbeError::Malformed));
    assert_eq!(parse_result(String::from("{}")), Err(ProbeError::Malformed));
    assert_eq!(parse_result(String::from("[]")), Err(ProbeError::Malformed));
}

#[test]
fn overlong_digit_run_is_malformed() {
    let raw = String::from("{\"STATUS\":[{\"STATUS\":\"S\"}],\"x\":0.") + &"0".repeat(40000) + "}";
    assert_eq!(parse_result(raw), Err(ProbeError::Malformed));
}

#[test]
fn long_fraction_within_limit_is_accepted() {
    let raw = String::from("{\"STATUS\":[{\"STATUS\":\"S\"}],\"x\":0.") + &"0".repeat(32767) + "}";
    assert_eq!(parse_result(raw.clone()), Ok(raw));
}

#[test]
fn digit_runs_are_measured() {
    assert!(!long_digit_run(&"7".repeat(32767)));
    assert!(long_digit_run(&"7".repeat(32768)));
    assert!(!long_digit_run(&("1".repeat(20000) + "." + &"2".repeat(20000))));
    assert!(!long_digit_run(""));
}
