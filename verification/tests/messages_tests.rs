use rust_pom::countdown::IntervalType;
use rust_pom::messages::{
    countdown_line, exit_notice, finish_message, finish_message_now, interval_done_message,
    interval_done_message_now, pause_notice, start_message, start_message_now,
};

#[test]
fn countdown_line_work() {
    assert_eq!(
        countdown_line(IntervalType::Work, 1, 65),
        "Work Interval #1: remaining = 01:05"
    );
}

#[test]
fn countdown_line_break() {
    assert_eq!(
        countdown_line(IntervalType::Break, 2, 5),
        "Break Interval #2: remaining = 5 seconds"
    );
}

#[test]
fn done_message_work() {
    assert_eq!(
        interval_done_message(IntervalType::Work, 2, "09:30"),
        "@09:30: Completed Interval #2"
    );
}

#[test]
fn done_message_break() {
    assert_eq!(
        interval_done_message(IntervalType::Break, 1, "09:30"),
        "@09:30: Break Done"
    );
}

#[test]
fn start_message_text() {
    assert_eq!(start_message("08:00"), "@08:00: Start Pomodoro");
}

#[test]
fn finish_message_text() {
    assert_eq!(
        finish_message(300, 3, "10:15"),
        "@10:15: Pomodoro completed: Total time working = 15m"
    );
}

#[test]
fn notices_text() {
    assert_eq!(pause_notice(), "Paused. Press 'p' again to resume");
    assert_eq!(exit_notice(), "Exiting...");
}

fn assert_clock_stamp(s: &str) {
    let b = s.as_bytes();
    assert_eq!(b.len(), 5);
    assert!(b[0].is_ascii_digit());
    assert!(b[1].is_ascii_digit());
    assert_eq!(b[2], b':');
    assert!(b[3].is_ascii_digit());
    assert!(b[4].is_ascii_digit());
}

#[test]
fn stamped_start_message_has_clock_shape() {
    let line = start_message_now();
    assert!(line.starts_with('@'));
    assert!(line.ends_with(": Start Pomodoro"));
    assert_clock_stamp(&line[1..6]);
}

#[test]
fn stamped_done_message_has_clock_shape() {
    let line = interval_done_message_now(IntervalType::Work, 1);
    assert!(line.starts_with('@'));
    assert!(line.ends_with(": Completed Interval #1"));
    assert_clock_stamp(&line[1..6]);
}

#[test]
fn stamped_finish_message_has_clock_shape() {
    let line = finish_message_now(60, 2);
    assert!(line.starts_with('@'));
    assert!(line.ends_with(": Pomodoro completed: Total time working = 2m"));
    assert_clock_stamp(&line[1..6]);
}
