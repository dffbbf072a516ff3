use dprint_plugin_yapf::args::{get_parent_process_id_from_args, is_init, parse_u32, UsageError};

fn to_args(items: &[&str]) -> Vec<String> {
    items.iter().map(|s| s.to_string()).collect()
}

#[test]
fn parse_u32_reads_decimal_digits() {
    assert_eq!(parse_u32("0"), Some(0));
    assert_eq!(parse_u32("1234"), Some(1234));
    assert_eq!(parse_u32("+42"), Some(42));
    assert_eq!(parse_u32("007"), Some(7));
}

#[test]
fn parse_u32_accepts_the_largest_value() {
    assert_eq!(parse_u32("4294967295"), Some(u32::MAX));
}

#[test]
fn parse_u32_rejects_overflow() {
    assert_eq!(parse_u32("4294967296"), None);
    assert_eq!(parse_u32("99999999999999999999"), None);
}

#[test]
fn parse_u32_rejects_malformed_text() {
    assert_eq!(parse_u32(""), None);
    assert_eq!(parse_u32("+"), None);
    assert_eq!(parse_u32("-1"), None);
    assert_eq!(parse_u32("12a"), None);
    assert_eq!(parse_u32(" 12"), None);
    assert_eq!(parse_u32("++1"), None);
}

#[test]
fn parse_u32_agrees_with_std() {
    for s in ["", "0", "+7", "-0", "65535", "4294967295", "4294967296", "x", "1_000"] {
        assert_eq!(parse_u32(s), s.parse::<u32>().ok(), "input {:?}", s);
    }
}

#[test]
fn is_init_finds_the_flag_anywhere() {
    assert!(is_init(&to_args(&["exe", "--parent-pid", "1", "--init"])));
    assert!(is_init(&to_args(&["exe", "--init", "--parent-pid", "1"])));
}

#[test]
fn is_init_is_false_without_the_flag() {
    assert!(!is_init(&to_args(&[])));
    assert!(!is_init(&to_args(&["exe", "--parent-pid", "1", "--initialize", "init"])));
}

#[test]
fn parent_pid_is_read_after_the_flag() {
    let args = to_args(&["exe", "--parent-pid", "4321"]);
    assert_eq!(get_parent_process_id_from_args(&args), Ok(4321));
    let args = to_args(&["exe", "--init", "--parent-pid", "17", "--parent-pid", "18"]);
    assert_eq!(get_parent_process_id_from_args(&args), Ok(17));
}

#[test]
fn parent_pid_missing_is_a_usage_error() {
    assert_eq!(get_parent_process_id_from_args(&to_args(&[])), Err(UsageError::MissingParentPid));
    assert_eq!(
        get_parent_process_id_from_args(&to_args(&["exe", "--init"])),
        Err(UsageError::MissingParentPid)
    );
    assert_eq!(
        get_parent_process_id_from_args(&to_args(&["exe", "--parent-pid"])),
        Err(UsageError::MissingParentPid)
    );
}

#[test]
fn parent_pid_not_numeric_is_a_usage_error() {
    assert_eq!(
        get_parent_process_id_from_args(&to_args(&["exe", "--parent-pid", "abc"])),
        Err(UsageError::InvalidParentPid)
    );
    assert_eq!(
        get_parent_process_id_from_args(&to_args(&["exe", "--parent-pid", "-5"])),
        Err(UsageError::InvalidParentPid)
    );
}

#[test]
fn parent_pid_zero_is_a_usage_error() {
    assert_eq!(
        get_parent_process_id_from_args(&to_args(&["exe", "--parent-pid", "0"])),
        Err(UsageError::InvalidParentPid)
    );
    assert_eq!(
        get_parent_process_id_from_args(&to_args(&["exe", "--parent-pid", "+000"])),
        Err(UsageError::InvalidParentPid)
    );
}

#[test]
fn every_argument_is_read_as_a_flag() {
    assert_eq!(get_parent_process_id_from_args(&to_args(&["--parent-pid", "5"])), Ok(5));
    assert_eq!(
        get_parent_process_id_from_args(&to_args(&["--parent-pid", "--parent-pid", "12"])),
        Err(UsageError::InvalidParentPid)
    );
    assert!(is_init(&to_args(&["--init"])));
    assert_eq!(is_init(&to_args(&["--init", "p"])), is_init(&to_args(&["p", "--init"])));
}
