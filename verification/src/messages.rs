//! The user-visible text of the timer: the per-second countdown line, the
//! pause and exit notices, the phase-done lines and the final summary. The
//! driver outside the library prints these and adds the carriage returns
//! and line-clearing escape codes of the live display.

use vstd::prelude::*;
use vstd::string::StringExecFns;

use crate::countdown::IntervalType;
use crate::session::{spec_total_work, total_work_seconds};
use crate::time_format::{compact_view, dec_digits, format_time, push_dec, verbose_view, TimeFormat};
use crate::user_input::is_ascii_digit;

verus! {

/// The display label of a phase kind.
pub open spec fn kind_label(kind: IntervalType) -> Seq<char> {
    match kind {
        IntervalType::Work => "Work"@,
        IntervalType::Break => "Break"@,
    }
}

/// The shape of a wall-clock stamp: two digits, a colon, two digits.
pub open spec fn is_clock_text(s: Seq<char>) -> bool {
    &&& s.len() == 5
    &&& s[2] == ':'
    &&& is_ascii_digit(s[0])
    &&& is_ascii_digit(s[1])
    &&& is_ascii_digit(s[3])
    &&& is_ascii_digit(s[4])
}

/// Relies on chrono's `Local::now` and the `%H:%M` format items: hour and
/// minute are each written as exactly two zero-padded digits with a colon
/// between them. The result depends on the wall clock, so nothing more is
/// promised of it.
#[verifier::external_body]
fn now_hhmm() -> (r: String)
    ensures
        is_clock_text(r@),
{
    chrono::Local::now().format("%H:%M").to_string()
}

/// The line announcing the start of the whole session.
pub open spec fn spec_start_message(now: Seq<char>) -> Seq<char> {
    "@"@ + now + ": Start Pomodoro"@
}

/// The per-second status line of a running phase.
pub open spec fn spec_countdown_line(kind: IntervalType, ordinal: nat, remaining: nat) -> Seq<
    char,
> {
    kind_label(kind) + " Interval #"@ + dec_digits(ordinal) + ": remaining = "@ + compact_view(
        remaining,
    )
}

/// The line emitted when a phase completes.
pub open spec fn spec_interval_done_message(
    kind: IntervalType,
    ordinal: nat,
    now: Seq<char>,
) -> Seq<char> {
    match kind {
        IntervalType::Work => "@"@ + now + ": Completed Interval #"@ + dec_digits(ordinal),
        IntervalType::Break => "@"@ + now + ": Break Done"@,
    }
}

/// The final summary: the total worked time, verbose, with overflow already
/// resolved to zero by [`spec_total_work`].
pub open spec fn spec_finish_message(work: u64, num_intervals: nat, now: Seq<char>) -> Seq<char> {
    "@"@ + now + ": Pomodoro completed: Total time working = "@ + verbose_view(
        spec_total_work(work, num_intervals) as nat,
    )
}

/// The one-time notice shown while the countdown is paused.
pub fn pause_notice() -> (r: String)
    ensures
        r@ == "Paused. Press 'p' again to resume"@,
{
    String::from_str("Paused. Press 'p' again to resume")
}

/// The notice shown when the user cancels the session.
pub fn exit_notice() -> (r: String)
    ensures
        r@ == "Exiting..."@,
{
    String::from_str("Exiting...")
}

/// Builds the per-second status line for a running phase.
pub fn countdown_line(kind: IntervalType, ordinal: usize, remaining: u64) -> (r: String)
    ensures
        r@ == spec_countdown_line(kind, ordinal as nat, remaining as nat),
{
    let mut out = match kind {
        IntervalType::Work => String::from_str("Work"),
        IntervalType::Break => String::from_str("Break"),
    };
    out.append(" Interval #");
    push_dec(&mut out, ordinal as u64);
    out.append(": remaining = ");
    let formatted = format_time(remaining, TimeFormat::Compact);
    out.append(formatted.as_str());
    proof {
        assert(out@ =~= spec_countdown_line(kind, ordinal as nat, remaining as nat));
    }
    out
}

/// Builds the session start line for a given clock stamp.
pub fn start_message(now: &str) -> (r: String)
    ensures
        r@ == spec_start_message(now@),
{
    let mut out = String::from_str("@");
    out.append(now);
    out.append(": Start Pomodoro");
    proof {
        assert(out@ =~= spec_start_message(now@));
    }
    out
}

/// Builds the session start line stamped with the current wall-clock time.
pub fn start_message_now() -> (r: String)
    ensures
        exists|now: Seq<char>| is_clock_text(now) && r@ == spec_start_message(now),
{
    let now = now_hhmm();
    let r = start_message(now.as_str());
    proof {
        assert(is_clock_text(now@) && r@ == spec_start_message(now@));
    }
    r
}

/// Builds the phase-done line for a given clock stamp.
pub fn interval_done_message(kind: IntervalType, ordinal: usize, now: &str) -> (r: String)
    ensures
        r@ == spec_interval_done_message(kind, ordinal as nat, now@),
{
    let mut out = String::from_str("@");
    out.append(now);
    match kind {
        IntervalType::Work => {
            out.append(": Completed Interval #");
            push_dec(&mut out, ordinal as u64);
        },
        IntervalType::Break => {
            out.append(": Break Done");
        },
    }
    proof {
        assert(out@ =~= spec_interval_done_message(kind, ordinal as nat, now@));
    }
    out
}

/// Builds the phase-done line stamped with the current wall-clock time.
pub fn interval_done_message_now(kind: IntervalType, ordinal: usize) -> (r: String)
    ensures
        exists|now: Seq<char>|
            is_clock_text(now) && r@ == spec_interval_done_message(kind, ordinal as nat, now),
{
    let now = now_hhmm();
    let r = interval_done_message(kind, ordinal, now.as_str());
    proof {
        assert(is_clock_text(now@) && r@ == spec_interval_done_message(
            kind,
            ordinal as nat,
            now@,
        ));
    }
    r
}

/// Builds the final summary line for a given clock stamp.
pub fn finish_message(work: u64, num_intervals: usize, now: &str) -> (r: String)
    ensures
        r@ == spec_finish_message(work, num_intervals as nat, now@),
{
    let total = total_work_seconds(work, num_intervals);
    let mut out = String::from_str("@");
    out.append(now);
    out.append(": Pomodoro completed: Total time working = ");
    let formatted = format_time(total, TimeFormat::Verbose);
    out.append(formatted.as_str());
    proof {
        assert(out@ =~= spec_finish_message(work, num_intervals as nat, now@));
    }
    out
}

/// Builds the final summary line stamped with the current wall-clock time.
pub fn finish_message_now(work: u64, num_intervals: usize) -> (r: String)
    ensures
        exists|now: Seq<char>|
            is_clock_text(now) && r@ == spec_finish_message(work, num_intervals as nat, now),
{
    let now = now_hhmm();
    let r = finish_message(work, num_intervals, now.as_str());
    proof {
        assert(is_clock_text(now@) && r@ == spec_finish_message(work, num_intervals as nat, now@));
    }
    r
}

} // verus!
