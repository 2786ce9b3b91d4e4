//! The countdown state machine for a single work or break phase.
//!
//! A phase holds its remaining seconds, a pause flag and a cancel flag.
//! Each loop iteration of the driver polls the keyboard, classifies the
//! event, and hands it to [`PhaseCountdown::step`], which decides the next
//! state and tells the driver what to do: render and tick, idle briefly,
//! show or clear the pause notice, finish, or abort. Input is always applied
//! before a tick, so a pause or cancel issued during a tick is observed at
//! the start of the next iteration at the latest, and a paused phase never
//! loses a second.

use vstd::prelude::*;

use crate::input::EventOutcome;

verus! {

/// Whether a phase is a work interval or a break interval.
#[derive(Clone, Copy, PartialEq, Eq, Structural, Debug)]
pub enum IntervalType {
    Work,
    Break,
}

/// What the driver must do after one step of the state machine.
#[derive(Clone, Copy, PartialEq, Eq, Structural, Debug)]
pub enum StepAction {
    /// Render this remaining value, then wait one whole tick (one second).
    Render(u64),
    /// Paused: wait a short idle interval, deliberately shorter than a tick,
    /// so a resume or cancel keystroke is noticed promptly.
    Idle,
    /// The pause flag was just set: show the one-time pause notice, then
    /// re-enter the loop promptly without sleeping a full tick.
    NotifyPaused,
    /// The pause flag was just cleared: clear the pause notice, then
    /// re-enter the loop promptly without sleeping a full tick.
    NotifyResumed,
    /// The phase is complete: emit the phase-done message and stop.
    Finish,
    /// The phase is cancelled: emit the exiting notice and halt the session.
    Abort,
}

/// The state of one running phase: what kind it is, its 1-based ordinal
/// within that kind, the seconds still to run, and the pause and cancel flags.
#[derive(Clone, Copy, PartialEq, Eq, Structural, Debug)]
pub struct PhaseCountdown {
    pub kind: IntervalType,
    pub ordinal: usize,
    pub remaining: u64,
    pub paused: bool,
    pub cancelled: bool,
}

impl PhaseCountdown {
    /// Completed and cancelled are mutually exclusive terminal outcomes.
    pub open spec fn is_completed(self) -> bool {
        !self.cancelled && self.remaining == 0
    }

    pub open spec fn is_terminal(self) -> bool {
        self.cancelled || self.remaining == 0
    }
}

/// One iteration of the countdown protocol: given the classified keyboard
/// event, the next state and the action the driver must take.
///
/// The event is examined before any tick, so a cancel or pause request is
/// never applied retroactively to a tick already in flight. A terminal state
/// never changes again. A pause toggle neither decrements nor ticks. The
/// remaining time decreases by exactly one, and only on a running tick.
pub open spec fn spec_step(st: PhaseCountdown, event: EventOutcome) -> (PhaseCountdown, StepAction) {
    if st.cancelled {
        (st, StepAction::Abort)
    } else if st.remaining == 0 {
        (st, StepAction::Finish)
    } else {
        match event {
            EventOutcome::Exit => (
                PhaseCountdown { cancelled: true, ..st },
                StepAction::Abort,
            ),
            EventOutcome::PauseToggled => {
                let next = PhaseCountdown { paused: !st.paused, ..st };
                (
                    next,
                    if next.paused {
                        StepAction::NotifyPaused
                    } else {
                        StepAction::NotifyResumed
                    },
                )
            },
            EventOutcome::Continue => {
                if st.paused {
                    (st, StepAction::Idle)
                } else {
                    (
                        PhaseCountdown { remaining: (st.remaining - 1) as u64, ..st },
                        StepAction::Render(st.remaining),
                    )
                }
            },
        }
    }
}

impl PhaseCountdown {
    /// A phase starts running, not paused and not cancelled, with its whole
    /// duration remaining.
    pub fn new(kind: IntervalType, ordinal: usize, duration: u64) -> (r: Self)
        ensures
            r == (PhaseCountdown {
                kind,
                ordinal,
                remaining: duration,
                paused: false,
                cancelled: false,
            }),
    {
        PhaseCountdown { kind, ordinal, remaining: duration, paused: false, cancelled: false }
    }

    /// Advances the state machine by one iteration and returns the action
    /// the driver must take. Follows [`spec_step`] exactly; in particular:
    /// the remaining time never increases, it decreases only on a running
    /// tick, the phase identity never changes, a cancel event cancels at
    /// once, and a terminal state stays as it is.
    pub fn step(&mut self, event: EventOutcome) -> (action: StepAction)
        ensures
            (*final(self), action) == spec_step(*old(self), event),
            final(self).kind == old(self).kind,
            final(self).ordinal == old(self).ordinal,
            final(self).remaining <= old(self).remaining,
            old(self).is_terminal() ==> *final(self) == *old(self),
            old(self).is_completed() ==> action == StepAction::Finish,
            !old(self).is_terminal() && event == EventOutcome::Exit ==> final(self).cancelled
                && action == StepAction::Abort,
            action == StepAction::Render(old(self).remaining) <==> !old(self).is_terminal()
                && !old(self).paused && event == EventOutcome::Continue,
            matches!(action, StepAction::Render(_)) ==> final(self).remaining == old(
                self,
            ).remaining - 1,
    {
        if self.cancelled {
            StepAction::Abort
        } else if self.remaining == 0 {
            StepAction::Finish
        } else {
            match event {
                EventOutcome::Exit => {
                    self.cancelled = true;
                    StepAction::Abort
                },
                EventOutcome::PauseToggled => {
                    self.paused = !self.paused;
                    if self.paused {
                        StepAction::NotifyPaused
                    } else {
                        StepAction::NotifyResumed
                    }
                },
                EventOutcome::Continue => {
                    if self.paused {
                        StepAction::Idle
                    } else {
                        let shown = self.remaining;
                        self.remaining = self.remaining - 1;
                        StepAction::Render(shown)
                    }
                },
            }
        }
    }
}

/// A phase of duration zero completes at once: whatever event arrives, the
/// very first step finishes the phase without rendering a single tick and
/// without touching the state.
pub proof fn lemma_zero_duration_completes(st: PhaseCountdown)
    requires
        st.remaining == 0,
        !st.cancelled,
    ensures
        forall|event: EventOutcome| #[trigger] spec_step(st, event) == (st, StepAction::Finish),
{
}

/// Toggling pause twice in immediate succession, before any tick decrements,
/// leaves the remaining time unchanged and returns the phase to a non-paused
/// running state: the state is exactly what it was.
pub proof fn lemma_pause_toggle_twice(st: PhaseCountdown)
    requires
        !st.cancelled,
        !st.paused,
    ensures
        ({
            let (once, _) = spec_step(st, EventOutcome::PauseToggled);
            let (twice, _) = spec_step(once, EventOutcome::PauseToggled);
            twice == st && !twice.paused && twice.remaining == st.remaining
        }),
{
}

/// The state after `k` iterations in which no keystroke arrives.
pub open spec fn spec_run_uninterrupted(st: PhaseCountdown, k: nat) -> PhaseCountdown
    decreases k,
{
    if k == 0 {
        st
    } else {
        spec_run_uninterrupted(spec_step(st, EventOutcome::Continue).0, (k - 1) as nat)
    }
}

/// A running, unpaused phase left alone completes: after exactly as many
/// undisturbed iterations as it has seconds remaining, the phase is in its
/// completed terminal state — never cancelled, never stuck.
pub proof fn lemma_uninterrupted_run_completes(st: PhaseCountdown)
    requires
        !st.cancelled,
        !st.paused,
    ensures
        spec_run_uninterrupted(st, st.remaining as nat).is_completed(),
    decreases st.remaining,
{
    if st.remaining > 0 {
        lemma_uninterrupted_run_completes(spec_step(st, EventOutcome::Continue).0);
    }
}

/// A cancel event at any positive remaining time cancels the phase at once,
/// and from then on every step leaves the state cancelled and only ever asks
/// the driver to abort: no further tick, render or pause can occur.
pub proof fn lemma_cancel_halts(st: PhaseCountdown, event: EventOutcome)
    requires
        !st.cancelled,
        st.remaining > 0,
    ensures
        spec_step(st, EventOutcome::Exit).0.cancelled,
        spec_step(st, EventOutcome::Exit).1 == StepAction::Abort,
        spec_step(spec_step(st, EventOutcome::Exit).0, event) == (
            spec_step(st, EventOutcome::Exit).0,
            StepAction::Abort,
        ),
{
}

} // verus!
