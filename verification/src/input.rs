//! Classification of a polled keyboard event into the small outcome set the
//! countdown loop understands. The poll itself — raw-mode terminal input —
//! happens outside the library; it hands over the pressed character, if any,
//! and whether the control modifier was held.

use vstd::prelude::*;

verus! {

/// The outcome of one keyboard poll: toggle pause, exit the session, or
/// nothing of interest.
#[derive(Clone, Copy, PartialEq, Eq, Structural, Debug)]
pub enum EventOutcome {
    PauseToggled,
    Exit,
    Continue,
}

/// How a polled key is classified: a plain `'p'` toggles pause, a `'c'`
/// with the control modifier held exits, and everything else — other keys,
/// modified `'p'`, or no key at all — is ignored.
pub open spec fn spec_classify_key(key: Option<char>, ctrl: bool) -> EventOutcome {
    match key {
        Some(c) => {
            if c == 'p' && !ctrl {
                EventOutcome::PauseToggled
            } else if c == 'c' && ctrl {
                EventOutcome::Exit
            } else {
                EventOutcome::Continue
            }
        },
        None => EventOutcome::Continue,
    }
}

/// Classifies one polled keyboard event. `key` is the character of the key
/// press, or `None` when nothing was pending or the event carried no
/// character; `ctrl` says whether the control modifier was held.
pub fn classify_key(key: Option<char>, ctrl: bool) -> (r: EventOutcome)
    ensures
        r == spec_classify_key(key, ctrl),
{
    match key {
        Some(c) => {
            if c == 'p' && !ctrl {
                EventOutcome::PauseToggled
            } else if c == 'c' && ctrl {
                EventOutcome::Exit
            } else {
                EventOutcome::Continue
            }
        },
        None => EventOutcome::Continue,
    }
}

} // verus!
