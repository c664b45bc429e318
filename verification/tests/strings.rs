use edge_runtime::flags::{build_v8_flags, v8_flags_unrecognized};
use edge_runtime::pool::SupervisorPolicy;
use edge_runtime::strutil::{split_on_char, str_eq, trim_spaces};
use edge_runtime::units::mib_to_bytes;

#[test]
fn test_str_eq_compares_contents() {
    assert!(str_eq("oneshot", "oneshot"));
    assert!(!str_eq("oneshot", "oneshots"));
    assert!(!str_eq("oneshot", "oneshoT"));
    assert!(str_eq("", ""));
}

#[test]
fn test_split_on_char_round_trips() {
    assert_eq!(split_on_char("a b", ' '), vec!["a", "b"]);
    assert_eq!(split_on_char("a,,b,", ','), vec!["a", "", "b", ""]);
    assert_eq!(split_on_char("", ','), vec![""]);
    assert_eq!(split_on_char("abc", ','), vec!["abc"]);
}

#[test]
fn test_trim_spaces_strips_both_ends() {
    assert_eq!(trim_spaces("  hello  "), "hello");
    assert_eq!(trim_spaces("hello"), "hello");
    assert_eq!(trim_spaces("   "), "");
    assert_eq!(trim_spaces(" a b "), "a b");
}

#[test]
fn test_v8_flags_list() {
    // No configured flags: the engine call is skipped.
    assert_eq!(build_v8_flags(""), None);
    // The program-name placeholder leads the split flags.
    let v = build_v8_flags("--lite-mode --max-heap-size=64").unwrap();
    assert_eq!(v, vec!["", "--lite-mode", "--max-heap-size=64"]);
}

#[test]
fn test_v8_flags_unrecognized_report() {
    // Only the leading placeholder came back: everything was recognized.
    assert!(!v8_flags_unrecognized(&vec![String::new()]));
    assert!(v8_flags_unrecognized(&vec![
        String::new(),
        String::from("--bogus")
    ]));
    assert!(v8_flags_unrecognized(&Vec::new()));
}

#[test]
fn test_policy_parse() {
    assert_eq!(
        SupervisorPolicy::parse("per_worker"),
        Some(SupervisorPolicy::PerWorker)
    );
    assert_eq!(
        SupervisorPolicy::parse("per_request"),
        Some(SupervisorPolicy::PerRequest)
    );
    assert_eq!(
        SupervisorPolicy::parse("oneshot"),
        Some(SupervisorPolicy::Oneshot)
    );
    assert_eq!(SupervisorPolicy::parse("per-worker"), None);
    assert!(SupervisorPolicy::parse("oneshot").unwrap().is_oneshot());
    assert!(!SupervisorPolicy::parse("per_worker").unwrap().is_oneshot());
}

#[test]
fn test_mib_to_bytes_conversion() {
    assert_eq!(mib_to_bytes(0), 0);
    assert_eq!(mib_to_bytes(15), 15_728_640);
    assert_eq!(mib_to_bytes(20), 20_971_520);
}
