use rust_pom::user_input::{
    get_break_interval_len, get_num_intervals, get_planned_action, get_work_interval_len,
    parse_count,
};

#[test]
fn parse_plain_number() {
    assert_eq!(parse_count("42"), Some(42));
    assert_eq!(parse_count("0"), Some(0));
}

#[test]
fn parse_leading_plus_and_zeros() {
    assert_eq!(parse_count("+7"), Some(7));
    assert_eq!(parse_count("007"), Some(7));
}

#[test]
fn parse_rejects_empty_and_lone_plus() {
    assert_eq!(parse_count(""), None);
    assert_eq!(parse_count("+"), None);
}

#[test]
fn parse_rejects_other_characters() {
    assert_eq!(parse_count("4x2"), None);
    assert_eq!(parse_count("-3"), None);
    assert_eq!(parse_count("3.5"), None);
    assert_eq!(parse_count("12 "), None);
}

#[test]
fn parse_limits_at_machine_maximum() {
    assert_eq!(parse_count("18446744073709551615"), Some(usize::MAX));
    assert_eq!(parse_count("18446744073709551616"), None);
    assert_eq!(parse_count("340282366920938463463374607431768211456"), None);
}

#[test]
fn interval_inputs_parse_to_seconds() {
    assert_eq!(get_num_intervals("3"), Some(3));
    assert_eq!(get_work_interval_len("300"), Some(300));
    assert_eq!(get_break_interval_len("0"), Some(0));
    assert_eq!(get_work_interval_len("three"), None);
    assert_eq!(get_break_interval_len(""), None);
}

#[test]
fn planned_action_must_be_nonempty() {
    assert_eq!(get_planned_action("write a report"), Some(String::from("write a report")));
    assert_eq!(get_planned_action(""), None);
}
