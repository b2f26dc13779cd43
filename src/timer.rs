//! The timer state machine: the phase, the seconds elapsed in it, and the
//! configured session length.
use vstd::prelude::*;
use crate::title::{get_tray_title, tray_title, TimerState};

verus! {

/// Session length a new timer starts with: twenty-five minutes.
pub const DEFAULT_SESSION_LENGTH: u32 = 1500;

/// Why a control request was refused.
#[derive(PartialEq, Eq, Structural, Copy, Clone, Debug)]
pub enum TimerError {
    /// A session length of zero seconds was requested.
    InvalidConfig,
}

/// The abstract state of a timer.
pub struct TimerModel {
    pub phase: TimerState,
    pub elapsed: nat,
    pub session_length: nat,
}

/// The state after one tick: a second more, unless paused.
pub open spec fn tick_model(m: TimerModel) -> TimerModel {
    if m.phase == TimerState::Paused {
        m
    } else {
        TimerModel { elapsed: m.elapsed + 1, ..m }
    }
}

/// A countdown timer advanced one second at a time while it is not paused.
#[derive(PartialEq, Eq, Structural, Copy, Clone, Debug)]
pub struct Timer {
    state: TimerState,
    duration: u32,
    session_length: u32,
}

impl View for Timer {
    type V = TimerModel;

    closed spec fn view(&self) -> TimerModel {
        TimerModel {
            phase: self.state,
            elapsed: self.duration as nat,
            session_length: self.session_length as nat,
        }
    }
}

impl Timer {
    /// The session length is positive.
    pub open spec fn wf(&self) -> bool {
        self@.session_length > 0
    }

    /// A paused timer at zero with the default session length.
    pub fn new() -> (r: Timer)
        ensures
            r.wf(),
            r@ == (TimerModel {
                phase: TimerState::Paused,
                elapsed: 0,
                session_length: DEFAULT_SESSION_LENGTH as nat,
            }),
    {
        Timer { state: TimerState::Paused, duration: 0, session_length: DEFAULT_SESSION_LENGTH }
    }

    /// The current phase.
    pub fn timer_state(&self) -> (r: TimerState)
        ensures
            r == self@.phase,
    {
        self.state
    }

    /// Seconds elapsed since the session began.
    pub fn timer_duration(&self) -> (r: u32)
        ensures
            r as nat == self@.elapsed,
    {
        self.duration
    }

    /// The configured session length in seconds.
    pub fn session_length(&self) -> (r: u32)
        requires
            self.wf(),
        ensures
            r as nat == self@.session_length,
            r > 0,
    {
        self.session_length
    }

    /// Advances one second, unless paused. The elapsed count must have room
    /// for one more second when the timer runs.
    pub fn tick(&mut self)
        requires
            old(self).wf(),
            old(self)@.phase == TimerState::Paused || old(self)@.elapsed < u32::MAX,
        ensures
            final(self).wf(),
            final(self)@ == tick_model(old(self)@),
            old(self)@.phase == TimerState::Paused <==> final(self)@.elapsed == old(self)@.elapsed,
            old(self)@.phase != TimerState::Paused ==> final(self)@.elapsed == old(self)@.elapsed
                + 1,
    {
        if self.state != TimerState::Paused {
            self.duration = self.duration + 1;
        }
    }

    /// Switches to `phase`; the elapsed time and the session length stay.
    pub fn set_phase(&mut self, phase: TimerState)
        requires
            old(self).wf(),
        ensures
            final(self).wf(),
            final(self)@ == (TimerModel { phase, ..old(self)@ }),
    {
        self.state = phase;
    }

    /// Sets the session length; zero is refused and leaves the timer as it
    /// was.
    pub fn set_session_length(&mut self, session_length: u32) -> (r: Result<(), TimerError>)
        requires
            old(self).wf(),
        ensures
            final(self).wf(),
            session_length == 0 <==> r == Err::<(), TimerError>(TimerError::InvalidConfig),
            session_length == 0 ==> final(self)@ == old(self)@,
            session_length > 0 ==> r is Ok && final(self)@ == (TimerModel {
                session_length: session_length as nat,
                ..old(self)@
            }),
    {
        if session_length == 0 {
            return Err(TimerError::InvalidConfig);
        }
        self.session_length = session_length;
        Ok(())
    }

    /// Sets the elapsed time back to zero; the phase and the session length
    /// stay.
    pub fn reset(&mut self)
        requires
            old(self).wf(),
        ensures
            final(self).wf(),
            final(self)@ == (TimerModel { elapsed: 0, ..old(self)@ }),
    {
        self.duration = 0;
    }

    /// The status line for the current state.
    pub fn status(&self) -> (r: String)
        ensures
            r@ == tray_title(self@.phase, self@.elapsed, self@.session_length),
    {
        get_tray_title(self.state, self.duration, self.session_length)
    }
}

} // verus!
