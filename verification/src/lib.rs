//! A terminal Pomodoro timer library: alternating work and break phases,
//! a per-second countdown that can be paused, resumed and cancelled, and
//! human-readable time formatting. The countdown and session logic is
//! verified; terminal input and output live outside the library.

pub mod countdown;
pub mod input;
pub mod messages;
pub mod session;
pub mod time_format;
pub mod user_input;
