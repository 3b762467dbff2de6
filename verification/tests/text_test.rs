use loco_cli::error::{exit_code_for, LocoError, EXIT_AUTH, EXIT_CONFIG, EXIT_ERROR};
use loco_cli::models::{flag_from, FlaggedValue};
use loco_cli::output::{confirm_step, ConfirmStep, MessageKind, OutputMode};
use loco_cli::text::{decimal_string, join_strings, replace_str, trim_end, truncate};

#[test]
fn decimal_strings() {
    assert_eq!(decimal_string(0), "0");
    assert_eq!(decimal_string(7), "7");
    assert_eq!(decimal_string(10), "10");
    assert_eq!(decimal_string(1234567890), "1234567890");
    assert_eq!(decimal_string(u64::MAX), u64::MAX.to_string());
}

#[test]
fn join_and_replace() {
    assert_eq!(join_strings(&Vec::new(), ", "), "");
    assert_eq!(join_strings(&vec!["ui".to_string()], ", "), "ui");
    assert_eq!(join_strings(&vec!["a".to_string(), "b".to_string()], ", "), "a, b");
    assert_eq!(replace_str("aaa", "aa", "b"), "ba");
    assert_eq!(replace_str("xyz", "q", "r"), "xyz");
    assert_eq!(replace_str("", "q", "r"), "");
    assert_eq!(replace_str("abab", "ab", ""), "");
}

#[test]
fn trim_and_truncate() {
    assert_eq!(trim_end("https://x/api//", '/'), "https://x/api");
    assert_eq!(trim_end("///", '/'), "");
    assert_eq!(trim_end("abc", '/'), "abc");
    assert_eq!(truncate("hello", 60), "hello");
    assert_eq!(truncate("hello", 3), "hel");
    assert_eq!(truncate("héllo", 3), "hé");
}

#[test]
fn flags_from_raw_values() {
    assert_eq!(flag_from(FlaggedValue::Bool(false)), None);
    assert_eq!(flag_from(FlaggedValue::Bool(true)), Some("flagged".to_string()));
    assert_eq!(flag_from(FlaggedValue::Text(String::new())), None);
    assert_eq!(flag_from(FlaggedValue::Text("fuzzy".to_string())), Some("fuzzy".to_string()));
    assert_eq!(flag_from(FlaggedValue::Null), None);
}

#[test]
fn exit_codes() {
    assert_eq!(exit_code_for(Some(&LocoError::Unauthorized)), EXIT_AUTH);
    assert_eq!(exit_code_for(Some(&LocoError::Config("x".to_string()))), EXIT_CONFIG);
    assert_eq!(exit_code_for(Some(&LocoError::RateLimited)), EXIT_ERROR);
    assert_eq!(exit_code_for(Some(&LocoError::NotFound("gone".to_string()))), EXIT_ERROR);
    assert_eq!(exit_code_for(None), EXIT_ERROR);
    assert_eq!((EXIT_ERROR, EXIT_AUTH, EXIT_CONFIG), (1, 2, 3));
}

#[test]
fn output_policy() {
    let quiet = OutputMode { json_mode: false, quiet: true, verbose: false };
    assert!(quiet.shows(MessageKind::Error));
    assert!(!quiet.shows(MessageKind::Success));
    assert!(!quiet.shows(MessageKind::Info));
    assert!(!quiet.shows(MessageKind::Warn));
    assert!(!quiet.shows(MessageKind::Verbose));
    let loud = OutputMode { json_mode: true, quiet: false, verbose: true };
    assert!(loud.shows(MessageKind::Info));
    assert!(loud.shows(MessageKind::Verbose));
    assert!(loud.error_as_json());
    assert_eq!(confirm_step(true, false), ConfirmStep::Proceed);
    assert_eq!(confirm_step(false, true), ConfirmStep::Ask);
    assert_eq!(confirm_step(false, false), ConfirmStep::Refuse);
}
