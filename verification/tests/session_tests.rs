use rust_pom::countdown::IntervalType;
use rust_pom::messages::finish_message;
use rust_pom::session::{build_phase_plan, total_work_seconds, Phase, PomodoroSession};

fn phase(kind: IntervalType, ordinal: usize, duration: u64) -> Phase {
    Phase { kind, ordinal, duration }
}

#[test]
fn plan_with_breaks_alternates_and_omits_final_break() {
    let plan = build_phase_plan(300, 3, 60);
    assert_eq!(
        plan,
        vec![
            phase(IntervalType::Work, 1, 300),
            phase(IntervalType::Break, 1, 60),
            phase(IntervalType::Work, 2, 300),
            phase(IntervalType::Break, 2, 60),
            phase(IntervalType::Work, 3, 300),
        ]
    );
}

#[test]
fn full_session_with_breaks_reports_total() {
    let mut session = PomodoroSession::new(300, 3, 60);
    let mut completed: usize = 0;
    while let Some(_) = session.current_phase() {
        session.record_outcome(true);
        completed += 1;
    }
    assert_eq!(completed, 5);
    assert!(session.is_finished());
    assert_eq!(session.total_work(), 900);
}

#[test]
fn plan_without_breaks_is_work_only() {
    let plan = build_phase_plan(60, 2, 0);
    assert_eq!(
        plan,
        vec![phase(IntervalType::Work, 1, 60), phase(IntervalType::Work, 2, 60)]
    );
}

#[test]
fn single_interval_has_no_break() {
    let plan = build_phase_plan(10, 1, 5);
    assert_eq!(plan, vec![phase(IntervalType::Work, 1, 10)]);
}

#[test]
fn cancelled_session_runs_no_further_phases() {
    let mut session = PomodoroSession::new(60, 3, 30);
    let first = session.current_phase().expect("a phase is planned");
    assert_eq!(first, phase(IntervalType::Work, 1, 60));
    session.record_outcome(false);
    assert!(session.current_phase().is_none());
    assert!(!session.is_finished());
}

#[test]
fn cancel_mid_session_halts_before_remaining_phases() {
    let mut session = PomodoroSession::new(60, 3, 0);
    session.record_outcome(true);
    let second = session.current_phase().expect("second phase is planned");
    assert_eq!(second, phase(IntervalType::Work, 2, 60));
    session.record_outcome(false);
    assert!(session.current_phase().is_none());
    assert!(!session.is_finished());
}

#[test]
fn total_work_is_product_of_intervals_and_length() {
    assert_eq!(total_work_seconds(300, 3), 900);
    assert_eq!(total_work_seconds(0, 5), 0);
    assert_eq!(total_work_seconds(1, 1), 1);
}

#[test]
fn total_work_overflow_reports_zero() {
    assert_eq!(total_work_seconds(u64::MAX, 2), 0);
    assert_eq!(total_work_seconds(2, usize::MAX), 0);
    let session = PomodoroSession::new(u64::MAX, 2, 0);
    assert_eq!(session.total_work(), 0);
}

#[test]
fn overflow_summary_line_says_zero() {
    let line = finish_message(u64::MAX, 2, "10:15");
    assert_eq!(line, "@10:15: Pomodoro completed: Total time working = 0s");
}
