//! The Pomodoro session: the ordered plan of work and break phases, the
//! position of the session within it, and the total-worked-time summary.
//!
//! The plan holds `num_intervals` work phases, with a break phase between
//! each pair of consecutive work phases — never after the last one, and not
//! at all when the break length is zero. The driver runs one phase countdown
//! at a time; a cancelled phase halts the session with no further phases and
//! no summary.

use vstd::prelude::*;

use crate::countdown::IntervalType;

verus! {

/// One planned phase: its kind, its 1-based ordinal within that kind, and
/// its duration in seconds.
#[derive(Clone, Copy, PartialEq, Eq, Structural, Debug)]
pub struct Phase {
    pub kind: IntervalType,
    pub ordinal: usize,
    pub duration: u64,
}

/// The phase plan for `num_intervals` work phases of `work` seconds with
/// breaks of `brk` seconds: work and break phases alternate when `brk > 0`,
/// with no break after the final work phase; with `brk == 0` the plan is the
/// work phases alone.
pub open spec fn spec_phase_plan(work: u64, num_intervals: int, brk: u64) -> Seq<Phase>
    recommends
        num_intervals >= 1,
{
    if brk > 0 {
        Seq::new(
            (2 * num_intervals - 1) as nat,
            |i: int|
                if i % 2 == 0 {
                    Phase { kind: IntervalType::Work, ordinal: (i / 2 + 1) as usize, duration: work }
                } else {
                    Phase {
                        kind: IntervalType::Break,
                        ordinal: (i / 2 + 1) as usize,
                        duration: brk,
                    }
                },
        )
    } else {
        Seq::new(
            num_intervals as nat,
            |i: int| Phase { kind: IntervalType::Work, ordinal: (i + 1) as usize, duration: work },
        )
    }
}

/// The total worked seconds reported by the final summary:
/// `num_intervals * work`, or zero when that product does not fit in `u64`.
pub open spec fn spec_total_work(work: u64, num_intervals: nat) -> u64 {
    if num_intervals * work <= u64::MAX {
        (num_intervals * work) as u64
    } else {
        0
    }
}

/// Builds the ordered phase plan.
pub fn build_phase_plan(work: u64, num_intervals: usize, brk: u64) -> (plan: Vec<Phase>)
    requires
        num_intervals >= 1,
    ensures
        plan@ == spec_phase_plan(work, num_intervals as int, brk),
{
    let ghost target = spec_phase_plan(work, num_intervals as int, brk);
    let mut plan: Vec<Phase> = Vec::new();
    let mut done: usize = 0;
    while done < num_intervals
        invariant
            done <= num_intervals,
            num_intervals >= 1,
            target == spec_phase_plan(work, num_intervals as int, brk),
            plan@.len() == if brk > 0 {
                if done < num_intervals {
                    2 * done
                } else {
                    2 * num_intervals - 1
                }
            } else {
                done as int
            },
            forall|j: int| 0 <= j < plan@.len() ==> plan@[j] == target[j],
        decreases num_intervals - done,
    {
        let interval = done + 1;
        plan.push(Phase { kind: IntervalType::Work, ordinal: interval, duration: work });
        if brk > 0 && interval < num_intervals {
            plan.push(Phase { kind: IntervalType::Break, ordinal: interval, duration: brk });
        }
        done = interval;
    }
    proof {
        assert(plan@ =~= target);
    }
    plan
}

/// The total worked seconds for the summary, computed with checked
/// multiplication: on overflow the summary reports zero rather than a
/// wrapped value.
pub fn total_work_seconds(work: u64, num_intervals: usize) -> (r: u64)
    ensures
        r == spec_total_work(work, num_intervals as nat),
{
    match (num_intervals as u64).checked_mul(work) {
        Some(total) => total,
        None => 0,
    }
}

/// A running session: its configuration, its phase plan, the index of the
/// next phase to run, and whether a phase was cancelled.
pub struct PomodoroSession {
    pub work_interval_len: u64,
    pub num_intervals: usize,
    pub break_interval_len: u64,
    pub plan: Vec<Phase>,
    pub next_phase: usize,
    pub cancelled: bool,
}

impl PomodoroSession {
    /// The plan matches the configuration and the position lies within it.
    pub open spec fn wf(self) -> bool {
        &&& self.num_intervals >= 1
        &&& self.plan@ == spec_phase_plan(
            self.work_interval_len,
            self.num_intervals as int,
            self.break_interval_len,
        )
        &&& self.next_phase <= self.plan@.len()
    }

    /// The phase the driver must run next: none once the session is
    /// cancelled or the plan is exhausted.
    pub open spec fn spec_current_phase(self) -> Option<Phase> {
        if !self.cancelled && self.next_phase < self.plan@.len() {
            Some(self.plan@[self.next_phase as int])
        } else {
            None
        }
    }

    /// The session finished normally: every phase completed, none cancelled.
    /// Only then is the final summary printed.
    pub open spec fn spec_finished(self) -> bool {
        !self.cancelled && self.next_phase == self.plan@.len()
    }

    /// A new session at the start of its plan, nothing cancelled.
    pub fn new(work_interval_len: u64, num_intervals: usize, break_interval_len: u64) -> (r: Self)
        requires
            num_intervals >= 1,
        ensures
            r.wf(),
            r.work_interval_len == work_interval_len,
            r.num_intervals == num_intervals,
            r.break_interval_len == break_interval_len,
            r.next_phase == 0,
            !r.cancelled,
    {
        let plan = build_phase_plan(work_interval_len, num_intervals, break_interval_len);
        PomodoroSession {
            work_interval_len,
            num_intervals,
            break_interval_len,
            plan,
            next_phase: 0,
            cancelled: false,
        }
    }

    /// The phase to run next, if the session is still going.
    pub fn current_phase(&self) -> (r: Option<Phase>)
        ensures
            r == self.spec_current_phase(),
    {
        if !self.cancelled && self.next_phase < self.plan.len() {
            Some(self.plan[self.next_phase])
        } else {
            None
        }
    }

    /// Records how the phase just run ended: a completed phase advances the
    /// session to the next planned phase; a cancelled one halts it — the
    /// current phase becomes none and the session can never count as
    /// finished, so no summary is owed.
    pub fn record_outcome(&mut self, completed: bool)
        requires
            !old(self).cancelled,
            old(self).next_phase < old(self).plan@.len(),
        ensures
            final(self).work_interval_len == old(self).work_interval_len,
            final(self).num_intervals == old(self).num_intervals,
            final(self).break_interval_len == old(self).break_interval_len,
            final(self).plan == old(self).plan,
            completed ==> final(self).next_phase == old(self).next_phase + 1
                && !final(self).cancelled,
            !completed ==> final(self).next_phase == old(self).next_phase && final(self).cancelled,
            old(self).wf() ==> final(self).wf(),
    {
        if completed {
            // Fetching the length bounds it by usize::MAX, so the increment
            // below cannot overflow.
            let _planned = self.plan.len();
            self.next_phase = self.next_phase + 1;
        } else {
            self.cancelled = true;
        }
    }

    /// Whether the whole plan completed normally.
    pub fn is_finished(&self) -> (r: bool)
        ensures
            r == self.spec_finished(),
    {
        !self.cancelled && self.next_phase == self.plan.len()
    }

    /// The total worked seconds for this session's summary.
    pub fn total_work(&self) -> (r: u64)
        ensures
            r == spec_total_work(self.work_interval_len, self.num_intervals as nat),
    {
        total_work_seconds(self.work_interval_len, self.num_intervals)
    }
}

/// A cancelled session halts for good: it offers no further phase to run,
/// and it never counts as finished, so the final summary is never printed.
pub proof fn lemma_cancelled_session_halts(s: PomodoroSession)
    requires
        s.cancelled,
    ensures
        s.spec_current_phase() is None,
        !s.spec_finished(),
{
}

/// The shape of the plan: with breaks there are `2 * num_intervals - 1`
/// phases, work phases at even positions and break phases at odd ones, each
/// with its 1-based ordinal; without breaks the plan is exactly the
/// `num_intervals` work phases.
pub proof fn lemma_phase_plan_shape(work: u64, num_intervals: int, brk: u64)
    requires
        num_intervals >= 1,
    ensures
        brk > 0 ==> spec_phase_plan(work, num_intervals, brk).len() == 2 * num_intervals - 1,
        brk == 0 ==> spec_phase_plan(work, num_intervals, brk).len() == num_intervals,
        brk > 0 ==> forall|i: int|
            0 <= i < spec_phase_plan(work, num_intervals, brk).len() && i % 2 == 0 ==> (
            #[trigger] spec_phase_plan(work, num_intervals, brk)[i]) == (Phase {
                kind: IntervalType::Work,
                ordinal: (i / 2 + 1) as usize,
                duration: work,
            }),
        brk > 0 ==> forall|i: int|
            0 <= i < spec_phase_plan(work, num_intervals, brk).len() && i % 2 == 1 ==> (
            #[trigger] spec_phase_plan(work, num_intervals, brk)[i]) == (Phase {
                kind: IntervalType::Break,
                ordinal: (i / 2 + 1) as usize,
                duration: brk,
            }),
        brk == 0 ==> forall|i: int|
            0 <= i < spec_phase_plan(work, num_intervals, brk).len() ==> (
            #[trigger] spec_phase_plan(work, num_intervals, brk)[i]) == (Phase {
                kind: IntervalType::Work,
                ordinal: (i + 1) as usize,
                duration: work,
            }),
{
}

} // verus!
