//! A pomodoro-style countdown timer: a state machine advanced once per second
//! and the status line derived from it for the window and the system tray.
use vstd::prelude::*;

pub mod clock;
pub mod timer;
pub mod title;

pub use clock::format_time;
pub use timer::{Timer, TimerError, DEFAULT_SESSION_LENGTH};
pub use title::{get_tray_title, TimerState};

verus! {

} // verus!
