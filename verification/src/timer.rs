//! The timer's state machine. Each operation is one of the decisions that the
//! interface makes when a key is pressed or when the clock ticks: it takes the
//! current instant where it needs one, moves the state, and says what the
//! interface has to show. Reading the clock, drawing and sleeping are left to
//! the caller.

use vstd::prelude::*;
use crate::time::{
    duration_to_hms, is_delta, is_instant, spec_duration_to_hms, whole_seconds, MAX_DELTA_MS,
    MAX_INSTANT_MS, MIN_DELTA_MS, MIN_INSTANT_MS, MS_PER_MINUTE, MS_PER_SECOND,
};
use crate::util::{duration_text, duration_to_timer_string};

verus! {

/// A session that is counting down toward `expiration` (an instant).
#[derive(Debug, Clone, Copy, PartialEq, Eq, Structural)]
pub struct RunningState {
    pub expiration: i64,
}

/// A session that is paused with `duration_remaining` left on the clock.
#[derive(Debug, Clone, Copy, PartialEq, Eq, Structural)]
pub struct PausedState {
    pub duration_remaining: i64,
}

/// Where the current session stands.
#[derive(Debug, Clone, Copy, PartialEq, Eq, Structural)]
pub enum RunState {
    Unstarted,
    Running(RunningState),
    Paused(PausedState),
    Finished,
}

/// The timer: the length of a session, and where the current one stands.
#[derive(Debug, Clone, Copy, PartialEq, Eq, Structural)]
pub struct TimerState {
    pub session_length: i64,
    pub run_state: RunState,
}

/// Time arithmetic that would leave the representable range: a duration
/// beyond `±i64::MAX` ms, or an instant outside the calendar's years.
#[derive(Debug, Clone, Copy, PartialEq, Eq, Structural)]
pub enum TimeError {
    DeltaOverflow,
    InstantOverflow,
}

/// What the interface must do after an adjustment: the new text of the
/// clock, if it changes, and whether to raise the end-of-session alert.
pub struct Effects {
    pub display: Option<String>,
    pub alert: bool,
}

/// One clock update while a session runs: the clock fields to show, and
/// whether the session has just finished.
#[derive(Debug, Clone, Copy)]
pub struct TickUpdate {
    pub hms: (i64, i64, i64),
    pub finished: bool,
}

/// The state with another run state and the same session length.
pub open spec fn with_run_state(s: TimerState, run_state: RunState) -> TimerState {
    TimerState { session_length: s.session_length, run_state }
}

/// Starting: an unstarted timer begins a session of `session_length` that
/// expires that long after `now`; in any other state nothing changes.
pub open spec fn spec_start(s: TimerState, now: int) -> Result<TimerState, TimeError> {
    match s.run_state {
        RunState::Unstarted => {
            let expiration = now + s.session_length;
            if is_instant(expiration) {
                Ok(with_run_state(s, RunState::Running(RunningState { expiration: expiration as i64 })))
            } else {
                Err(TimeError::InstantOverflow)
            }
        },
        _ => Ok(s),
    }
}

/// Pausing and resuming: a running session is paused with the time left
/// until its expiration; a paused session resumes, expiring the time it had
/// left after `now`; in any other state nothing changes.
pub open spec fn spec_toggle_pause(s: TimerState, now: int) -> Result<TimerState, TimeError> {
    match s.run_state {
        RunState::Running(r) => Ok(
            with_run_state(
                s,
                RunState::Paused(PausedState { duration_remaining: (r.expiration - now) as i64 }),
            ),
        ),
        RunState::Paused(p) => {
            let expiration = now + p.duration_remaining;
            if is_instant(expiration) {
                Ok(with_run_state(s, RunState::Running(RunningState { expiration: expiration as i64 })))
            } else {
                Err(TimeError::InstantOverflow)
            }
        },
        _ => Ok(s),
    }
}

/// Resetting: a finished session goes back to unstarted; in any other state
/// nothing changes.
pub open spec fn spec_reset(s: TimerState) -> TimerState {
    match s.run_state {
        RunState::Finished => with_run_state(s, RunState::Unstarted),
        _ => s,
    }
}

/// One minute, up or down.
pub open spec fn minute_step(increment: bool) -> int {
    if increment {
        MS_PER_MINUTE as int
    } else {
        -MS_PER_MINUTE
    }
}

/// Adding or taking off a minute. The result is the next state, the duration
/// whose text the clock must show (if it changes), and whether the session
/// ends with an alert.
/// - A finished session is left as it is.
/// - A paused session gets a minute more or less on the clock; if that
///   leaves no time, the session finishes with an alert and the clock shows
///   zero.
/// - An unstarted timer gets a longer or shorter session, but never one of
///   zero or negative length (the change is then refused).
/// - A running session expires a minute later or earlier; the clock is
///   redrawn by the next tick.
pub open spec fn spec_adjust(s: TimerState, increment: bool) -> Result<(TimerState, Option<int>, bool), TimeError> {
    let delta = minute_step(increment);
    match s.run_state {
        RunState::Finished => Ok((s, None, false)),
        RunState::Paused(p) => {
            let remaining = p.duration_remaining + delta;
            if !is_delta(remaining) {
                Err(TimeError::DeltaOverflow)
            } else if remaining <= 0 {
                Ok((with_run_state(s, RunState::Finished), Some(0), true))
            } else {
                Ok((
                    with_run_state(s, RunState::Paused(PausedState { duration_remaining: remaining as i64 })),
                    Some(remaining),
                    false,
                ))
            }
        },
        RunState::Unstarted => {
            let length = s.session_length + delta;
            if !is_delta(length) {
                Err(TimeError::DeltaOverflow)
            } else if length <= 0 {
                Ok((s, None, false))
            } else {
                Ok((TimerState { session_length: length as i64, run_state: s.run_state }, Some(length), false))
            }
        },
        RunState::Running(r) => {
            let expiration = r.expiration + delta;
            if is_instant(expiration) {
                Ok((with_run_state(s, RunState::Running(RunningState { expiration: expiration as i64 })), None, false))
            } else {
                Err(TimeError::InstantOverflow)
            }
        },
    }
}

/// One tick of the clock at `now`. A running session shows the time left
/// until its expiration; once less than a whole second is left it finishes
/// and shows zero. In any other state there is nothing to show (`None`), and
/// the ticking stops.
pub open spec fn spec_tick(s: TimerState, now: int) -> (TimerState, Option<((int, int, int), bool)>) {
    match s.run_state {
        RunState::Running(r) => {
            let remaining = r.expiration - now;
            if whole_seconds(remaining) <= 0 {
                (with_run_state(s, RunState::Finished), Some(((0, 0, 0), true)))
            } else {
                (s, Some((spec_duration_to_hms(remaining), false)))
            }
        },
        _ => (s, None),
    }
}

/// The effects that an adjustment reports match the spec's shown duration
/// and alert.
pub open spec fn effects_match(e: Effects, shown: Option<int>, alert: bool) -> bool {
    &&& e.alert == alert
    &&& (e.display is Some <==> shown is Some)
    &&& (shown matches Some(d) ==> e.display->0@ == duration_text(d))
}

/// The tick update that `tick` reports matches the spec's.
pub open spec fn tick_matches(u: Option<TickUpdate>, spec: Option<((int, int, int), bool)>) -> bool {
    match (u, spec) {
        (None, None) => true,
        (Some(u), Some((hms, finished))) => (u.hms.0 as int, u.hms.1 as int, u.hms.2 as int) == hms
            && u.finished == finished,
        _ => false,
    }
}

impl TimerState {
    /// Every duration is representable and every expiration is an instant.
    pub open spec fn wf(&self) -> bool {
        &&& is_delta(self.session_length as int)
        &&& match self.run_state {
            RunState::Running(r) => is_instant(r.expiration as int),
            RunState::Paused(p) => is_delta(p.duration_remaining as int),
            _ => true,
        }
    }

    /// A timer with sessions of `session_length` milliseconds, not yet started.
    pub fn new(session_length: i64) -> (s: Self)
        requires
            is_delta(session_length as int),
        ensures
            s.wf(),
            s.session_length == session_length,
            s.run_state == RunState::Unstarted,
    {
        TimerState { session_length, run_state: RunState::Unstarted }
    }

    /// Starts an unstarted timer at `now` (see `spec_start`). On an error the
    /// state is left unchanged.
    pub fn start(&mut self, now: i64) -> (r: Result<(), TimeError>)
        requires
            old(self).wf(),
            is_instant(now as int),
        ensures
            final(self).wf(),
            match spec_start(*old(self), now as int) {
                Ok(next) => r is Ok && *final(self) == next,
                Err(e) => r == Err::<(), TimeError>(e) && *final(self) == *old(self),
            },
    {
        match self.run_state {
            RunState::Unstarted => {
                let length = self.session_length;
                if length > 0 && now > MAX_INSTANT_MS - length {
                    return Err(TimeError::InstantOverflow);
                }
                if length < 0 && now < MIN_INSTANT_MS - length {
                    return Err(TimeError::InstantOverflow);
                }
                self.run_state = RunState::Running(RunningState { expiration: now + length });
                Ok(())
            },
            _ => Ok(()),
        }
    }

    /// Pauses a running session or resumes a paused one at `now` (see
    /// `spec_toggle_pause`). On an error the state is left unchanged.
    pub fn toggle_pause(&mut self, now: i64) -> (r: Result<(), TimeError>)
        requires
            old(self).wf(),
            is_instant(now as int),
        ensures
            final(self).wf(),
            match spec_toggle_pause(*old(self), now as int) {
                Ok(next) => r is Ok && *final(self) == next,
                Err(e) => r == Err::<(), TimeError>(e) && *final(self) == *old(self),
            },
    {
        match self.run_state {
            RunState::Running(rs) => {
                self.run_state = RunState::Paused(PausedState { duration_remaining: rs.expiration - now });
                Ok(())
            },
            RunState::Paused(ps) => {
                let remaining = ps.duration_remaining;
                if remaining > 0 && now > MAX_INSTANT_MS - remaining {
                    return Err(TimeError::InstantOverflow);
                }
                if remaining < 0 && now < MIN_INSTANT_MS - remaining {
                    return Err(TimeError::InstantOverflow);
                }
                self.run_state = RunState::Running(RunningState { expiration: now + remaining });
                Ok(())
            },
            _ => Ok(()),
        }
    }

    /// Resets a finished session (see `spec_reset`). When it does, it returns
    /// the text that the clock shows again: that of the session length.
    pub fn reset(&mut self) -> (shown: Option<String>)
        requires
            old(self).wf(),
        ensures
            final(self).wf(),
            *final(self) == spec_reset(*old(self)),
            shown is Some <==> old(self).run_state == RunState::Finished,
            shown matches Some(t) ==> t@ == duration_text(old(self).session_length as int),
    {
        match self.run_state {
            RunState::Finished => {
                self.run_state = RunState::Unstarted;
                Some(duration_to_timer_string(self.session_length))
            },
            _ => None,
        }
    }

    /// Adds a minute (`increment`) or takes one off (see `spec_adjust`). On
    /// an error the state is left unchanged.
    pub fn adjust(&mut self, increment: bool) -> (r: Result<Effects, TimeError>)
        requires
            old(self).wf(),
        ensures
            final(self).wf(),
            match spec_adjust(*old(self), increment) {
                Ok((next, shown, alert)) => r matches Ok(e) && *final(self) == next && effects_match(e, shown, alert),
                Err(err) => r matches Err(e) && e == err && *final(self) == *old(self),
            },
    {
        let delta: i64 = if increment { MS_PER_MINUTE } else { -MS_PER_MINUTE };
        match self.run_state {
            RunState::Finished => Ok(Effects { display: None, alert: false }),
            RunState::Paused(ps) => {
                let rem = ps.duration_remaining;
                if (increment && rem > MAX_DELTA_MS - MS_PER_MINUTE) || (!increment && rem < MIN_DELTA_MS + MS_PER_MINUTE) {
                    return Err(TimeError::DeltaOverflow);
                }
                let remaining = rem + delta;
                if remaining <= 0 {
                    self.run_state = RunState::Finished;
                    Ok(Effects { display: Some(duration_to_timer_string(0)), alert: true })
                } else {
                    self.run_state = RunState::Paused(PausedState { duration_remaining: remaining });
                    Ok(Effects { display: Some(duration_to_timer_string(remaining)), alert: false })
                }
            },
            RunState::Unstarted => {
                let len = self.session_length;
                if (increment && len > MAX_DELTA_MS - MS_PER_MINUTE) || (!increment && len < MIN_DELTA_MS + MS_PER_MINUTE) {
                    return Err(TimeError::DeltaOverflow);
                }
                let length = len + delta;
                if length <= 0 {
                    Ok(Effects { display: None, alert: false })
                } else {
                    self.session_length = length;
                    Ok(Effects { display: Some(duration_to_timer_string(length)), alert: false })
                }
            },
            RunState::Running(rs) => {
                let exp = rs.expiration;
                if (increment && exp > MAX_INSTANT_MS - MS_PER_MINUTE) || (!increment && exp < MIN_INSTANT_MS + MS_PER_MINUTE) {
                    return Err(TimeError::InstantOverflow);
                }
                self.run_state = RunState::Running(RunningState { expiration: exp + delta });
                Ok(Effects { display: None, alert: false })
            },
        }
    }

    /// One tick of the clock at `now` (see `spec_tick`): `None` tells the
    /// caller to stop ticking.
    pub fn tick(&mut self, now: i64) -> (u: Option<TickUpdate>)
        requires
            old(self).wf(),
            is_instant(now as int),
        ensures
            final(self).wf(),
            *final(self) == spec_tick(*old(self), now as int).0,
            tick_matches(u, spec_tick(*old(self), now as int).1),
    {
        match self.run_state {
            RunState::Running(rs) => {
                let remaining = rs.expiration - now;
                if remaining < MS_PER_SECOND {
                    self.run_state = RunState::Finished;
                    Some(TickUpdate { hms: (0, 0, 0), finished: true })
                } else {
                    Some(TickUpdate { hms: duration_to_hms(remaining), finished: false })
                }
            },
            _ => None,
        }
    }
}

} // verus!
