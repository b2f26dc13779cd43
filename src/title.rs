//! The status line shown in the window and in the system tray.
use vstd::prelude::*;
use crate::clock::{clock_text, format_time};

verus! {

/// The timer's current mode.
#[derive(PartialEq, Eq, Structural, Copy, Clone, Debug)]
pub enum TimerState {
    Paused,
    Running,
    Break,
}

/// The status line for a timer in `state` that has run `duration` seconds of
/// a session `session_length` seconds long. Past the end of the session it
/// shows the time run; before, the time that remains.
pub open spec fn tray_title(state: TimerState, duration: nat, session_length: nat) -> Seq<char> {
    match state {
        TimerState::Paused => "Paused"@,
        TimerState::Running => if duration >= session_length {
            "Finished session: "@ + clock_text(duration)
        } else {
            "In session: "@ + clock_text((session_length - duration) as nat)
        },
        TimerState::Break => if duration >= session_length {
            "Finished break: "@ + clock_text(duration)
        } else {
            "Break: "@ + clock_text((session_length - duration) as nat)
        },
    }
}

/// Builds the status line for the given state, elapsed seconds and session
/// length.
pub fn get_tray_title(timer_state: TimerState, timer_duration: u32, session_length: u32) -> (r:
    String)
    ensures
        r@ == tray_title(timer_state, timer_duration as nat, session_length as nat),
{
    match timer_state {
        TimerState::Paused => String::from_str("Paused"),
        TimerState::Running => {
            if timer_duration >= session_length {
                let t = format_time(timer_duration);
                String::from_str("Finished session: ").concat(t.as_str())
            } else {
                let t = format_time(session_length - timer_duration);
                String::from_str("In session: ").concat(t.as_str())
            }
        },
        TimerState::Break => {
            if timer_duration >= session_length {
                let t = format_time(timer_duration);
                String::from_str("Finished break: ").concat(t.as_str())
            } else {
                let t = format_time(session_length - timer_duration);
                String::from_str("Break: ").concat(t.as_str())
            }
        },
    }
}

/// While paused, the status line is `Paused` whatever the elapsed time and
/// the session length.
pub proof fn lemma_paused_title(duration: nat, session_length: nat)
    requires
        session_length > 0,
    ensures
        tray_title(TimerState::Paused, duration, session_length) == "Paused"@,
{
}

/// `true` when `s` begins with `prefix`.
pub open spec fn starts_with(s: Seq<char>, prefix: Seq<char>) -> bool {
    prefix.len() <= s.len() && s.subrange(0, prefix.len() as int) == prefix
}

/// `true` when `part` occurs somewhere in `s`.
pub open spec fn contains(s: Seq<char>, part: Seq<char>) -> bool {
    exists|i: int| 0 <= i <= s.len() - part.len() && #[trigger] s.subrange(i, i + part.len()) == part
}

proof fn lemma_prefix_and_tail(p: Seq<char>, t: Seq<char>)
    ensures
        starts_with(p + t, p),
        contains(p + t, t),
{
    let s = p + t;
    assert(s.subrange(0, p.len() as int) =~= p);
    assert(s.subrange(p.len() as int, s.len() as int) =~= t);
}

/// Once a running session has reached its length, the status line announces
/// the finished session and shows the elapsed time.
pub proof fn lemma_finished_session_title(duration: nat, session_length: nat)
    requires
        0 < session_length <= duration,
    ensures
        starts_with(
            tray_title(TimerState::Running, duration, session_length),
            "Finished session: "@,
        ),
        contains(tray_title(TimerState::Running, duration, session_length), clock_text(duration)),
{
    lemma_prefix_and_tail("Finished session: "@, clock_text(duration));
}

/// Before a running session reaches its length, the status line is
/// `In session: ` followed by the time that remains.
pub proof fn lemma_in_session_title(duration: nat, session_length: nat)
    requires
        duration < session_length,
    ensures
        tray_title(TimerState::Running, duration, session_length) == "In session: "@
            + clock_text((session_length - duration) as nat),
{
}

/// Once a break has reached its length, the status line announces the
/// finished break and shows the elapsed time.
pub proof fn lemma_finished_break_title(duration: nat, session_length: nat)
    requires
        0 < session_length <= duration,
    ensures
        starts_with(tray_title(TimerState::Break, duration, session_length), "Finished break: "@),
        contains(tray_title(TimerState::Break, duration, session_length), clock_text(duration)),
{
    lemma_prefix_and_tail("Finished break: "@, clock_text(duration));
}

/// Before a break reaches its length, the status line is `Break: ` followed
/// by the time that remains.
pub proof fn lemma_break_title(duration: nat, session_length: nat)
    requires
        duration < session_length,
    ensures
        tray_title(TimerState::Break, duration, session_length) == "Break: "@ + clock_text(
            (session_length - duration) as nat,
        ),
{
}

} // verus!
