//! Properties of the timer that span several operations.

use vstd::prelude::*;
use crate::time::{is_delta, is_instant, spec_duration_to_hms, whole_seconds, trunc_div};
use crate::timer::{
    minute_step, spec_adjust, spec_reset, spec_start, spec_tick, spec_toggle_pause, with_run_state,
    PausedState, RunState, RunningState, TimeError, TimerState,
};
use crate::util::{duration_text, timer_text, zero_pad_2, decimal};
use crate::tui::description_tail;

verus! {

/// Pausing a running session at `t1` and resuming it at `t2` leaves the same
/// time on the clock: the session then expires `t2 - t1` later than before,
/// and the session length is untouched.
pub proof fn law_pause_resume_keeps_time_left(s: TimerState, t1: int, t2: int)
    requires
        s.wf(),
        s.run_state is Running,
        is_instant(t1),
        is_instant(t2),
        is_instant(s.run_state->Running_0.expiration + (t2 - t1)),
    ensures
        ({
            let e = s.run_state->Running_0.expiration as int;
            let paused = with_run_state(s, RunState::Paused(PausedState { duration_remaining: (e - t1) as i64 }));
            &&& spec_toggle_pause(s, t1) == Ok::<TimerState, TimeError>(paused)
            &&& spec_toggle_pause(paused, t2) == Ok::<TimerState, TimeError>(
                with_run_state(s, RunState::Running(RunningState { expiration: (e + (t2 - t1)) as i64 })),
            )
            &&& (e + (t2 - t1)) - t2 == e - t1
        }),
{
}

/// A finished session stays finished: starting, pausing, adjusting and
/// ticking leave it as it is (the tick shows nothing and stops), and only a
/// reset brings it back to unstarted, with the same session length.
pub proof fn law_finished_until_reset(s: TimerState, now: int, increment: bool)
    requires
        s.wf(),
        s.run_state == RunState::Finished,
    ensures
        spec_start(s, now) == Ok::<TimerState, TimeError>(s),
        spec_toggle_pause(s, now) == Ok::<TimerState, TimeError>(s),
        spec_adjust(s, increment) == Ok::<(TimerState, Option<int>, bool), TimeError>((s, None, false)),
        spec_tick(s, now) == (s, None::<((int, int, int), bool)>),
        spec_reset(s) == (TimerState { session_length: s.session_length, run_state: RunState::Unstarted }),
{
}

/// Reset acts on finished sessions only: any other state is left as it is.
pub proof fn law_reset_only_after_finish(s: TimerState)
    requires
        s.run_state != RunState::Finished,
    ensures
        spec_reset(s) == s,
{
}

/// Adding a minute and taking it off again, or taking one off and adding it
/// back, gives back the same state, for a running session, and for an
/// unstarted or paused timer whose clock stays positive throughout, whenever
/// no step leaves the representable range.
pub proof fn law_adjust_round_trip(s: TimerState, increment: bool)
    requires
        s.wf(),
        s.run_state !is Finished,
        s.run_state is Unstarted ==> s.session_length > 0 && s.session_length + minute_step(increment) > 0
            && is_delta(s.session_length + minute_step(increment)),
        s.run_state is Paused ==> s.run_state->Paused_0.duration_remaining > 0
            && s.run_state->Paused_0.duration_remaining + minute_step(increment) > 0
            && is_delta(s.run_state->Paused_0.duration_remaining + minute_step(increment)),
        s.run_state is Running ==> is_instant(s.run_state->Running_0.expiration + minute_step(increment)),
    ensures
        spec_adjust(s, increment) matches Ok((s1, _, _)) && spec_adjust(s1, !increment) matches Ok((
            s2,
            _,
            _,
        )) && s2 == s,
{
}

/// The session length is never made zero or negative: every operation
/// either keeps it or sets it to a positive length.
pub proof fn law_session_length_stays_positive(s: TimerState, now: int, increment: bool)
    requires
        s.wf(),
        s.session_length > 0,
    ensures
        spec_start(s, now) matches Ok(t) ==> t.session_length == s.session_length,
        spec_toggle_pause(s, now) matches Ok(t) ==> t.session_length == s.session_length,
        spec_reset(s).session_length == s.session_length,
        spec_tick(s, now).0.session_length == s.session_length,
        spec_adjust(s, increment) matches Ok((t, _, _)) ==> t.session_length > 0,
{
}

/// Starting at `now` begins a session with exactly the session length left:
/// a tick at the same instant shows the clock of the full session length
/// (or finishes at once if that is under a second).
pub proof fn law_start_runs_full_session(s: TimerState, now: int)
    requires
        s.wf(),
        s.run_state == RunState::Unstarted,
        is_instant(now),
        is_instant(now + s.session_length),
    ensures
        spec_start(s, now) matches Ok(t) && t.run_state matches RunState::Running(r) && r.expiration - now
            == s.session_length && spec_tick(t, now).1 == (if whole_seconds(s.session_length as int) > 0 {
            Some((spec_duration_to_hms(s.session_length as int), false))
        } else {
            Some(((0int, 0int, 0int), true))
        }),
{
}

/// A tick that finishes the session is the last one: the next tick, at any
/// instant, shows nothing and leaves the state as it is.
pub proof fn law_finish_ends_ticking(s: TimerState, now: int, later: int)
    requires
        s.wf(),
        spec_tick(s, now).1 matches Some((_, finished)) && finished,
    ensures
        spec_tick(s, now).0.run_state == RunState::Finished,
        spec_tick(spec_tick(s, now).0, later) == (spec_tick(s, now).0, None::<((int, int, int), bool)>),
{
}

/// A running session finishes at a tick exactly when less than a whole
/// second is left on the clock.
pub proof fn law_tick_finishes_under_one_second(s: TimerState, now: int)
    requires
        s.wf(),
        s.run_state is Running,
    ensures
        (spec_tick(s, now).1 matches Some((_, finished)) && finished) <==> s.run_state->Running_0.expiration
            - now < 1000,
{
}

/// A session never ends silently: whenever an adjustment or a tick takes a
/// session into the finished state, it raises the alert (and only then), and
/// starting, pausing or resetting never finish a session.
pub proof fn law_finishing_raises_alert(s: TimerState, now: int, increment: bool)
    requires
        s.wf(),
        s.run_state != RunState::Finished,
    ensures
        spec_adjust(s, increment) matches Ok((t, _, alert)) ==> (t.run_state == RunState::Finished <==> alert),
        spec_tick(s, now).0.run_state == RunState::Finished <==> (spec_tick(s, now).1 matches Some((_, finished))
            && finished),
        spec_start(s, now) matches Ok(t) ==> t.run_state != RunState::Finished,
        spec_toggle_pause(s, now) matches Ok(t) ==> t.run_state != RunState::Finished,
        spec_reset(s).run_state != RunState::Finished,
{
}

/// For a non-negative duration under a hundred hours, the clock fields add
/// back up to its whole seconds.
pub proof fn law_hms_adds_up(ms: int)
    requires
        0 <= ms < 100 * 3600 * 1000,
    ensures
        ({
            let hms = spec_duration_to_hms(ms);
            hms.0 * 3600 + hms.1 * 60 + hms.2 == ms / 1000
        }),
{
    let secs = ms / 1000;
    assert(trunc_div(ms, 1000) == secs);
    assert(secs < 360000);
}

proof fn lemma_two_digits(n: int)
    requires
        0 <= n < 100,
    ensures
        zero_pad_2(n).len() == 2,
        zero_pad_2(n)[0] == ((n / 10) + 48) as char,
        zero_pad_2(n)[1] == ((n % 10) + 48) as char,
{
    if n >= 10 {
        assert(decimal((n / 10) as nat) == seq![((n / 10) + 48) as char]);
    }
}

/// The clock text of fields in `0..100` is `HH:MM:SS`: eight characters,
/// two decimal digits for each field with a colon between them.
pub proof fn law_timer_text_shape(h: int, m: int, s: int)
    requires
        0 <= h < 100,
        0 <= m < 100,
        0 <= s < 100,
    ensures
        ({
            let t = timer_text(h, m, s);
            &&& t.len() == 8
            &&& t[0] == ((h / 10) + 48) as char && t[1] == ((h % 10) + 48) as char
            &&& t[2] == ':'
            &&& t[3] == ((m / 10) + 48) as char && t[4] == ((m % 10) + 48) as char
            &&& t[5] == ':'
            &&& t[6] == ((s / 10) + 48) as char && t[7] == ((s % 10) + 48) as char
        }),
{
    lemma_two_digits(h);
    lemma_two_digits(m);
    lemma_two_digits(s);
}

/// The number that a decimal digit character stands for.
pub open spec fn digit_value(c: char) -> int {
    c as int - 48
}

/// A decimal digit character.
pub open spec fn is_digit(c: char) -> bool {
    '0' <= c <= '9'
}

/// The number written by the two digit characters of `t` at `i` and `i + 1`.
pub open spec fn two_digit_value(t: Seq<char>, i: int) -> int {
    digit_value(t[i]) * 10 + digit_value(t[i + 1])
}

proof fn lemma_hms_bounds(ms: int)
    requires
        0 <= ms < 100 * 3600 * 1000,
    ensures
        0 <= spec_duration_to_hms(ms).0 < 100,
        0 <= spec_duration_to_hms(ms).1 < 60,
        0 <= spec_duration_to_hms(ms).2 < 60,
{
    let secs = ms / 1000;
    assert(trunc_div(ms, 1000) == secs);
    assert(secs < 360000);
}

/// The clock text of a duration under a hundred hours is `HH:MM:SS`: eight
/// characters, three two-digit fields with colons between them, minutes and
/// seconds below 60, and the fields read as numbers add up to the whole
/// seconds of the duration (`HH*3600 + MM*60 + SS == d / 1000`).
pub proof fn law_duration_text_reads_back(d: int)
    requires
        0 <= d < 100 * 3600 * 1000,
    ensures
        ({
            let t = duration_text(d);
            &&& t.len() == 8
            &&& t[2] == ':' && t[5] == ':'
            &&& is_digit(t[0]) && is_digit(t[1]) && is_digit(t[3]) && is_digit(t[4])
            &&& is_digit(t[6]) && is_digit(t[7])
            &&& two_digit_value(t, 3) < 60 && two_digit_value(t, 6) < 60
            &&& two_digit_value(t, 0) * 3600 + two_digit_value(t, 3) * 60 + two_digit_value(t, 6) == d / 1000
        }),
        duration_text(d) == ({
            let hms = spec_duration_to_hms(d);
            timer_text(hms.0, hms.1, hms.2)
        }),
{
    lemma_hms_bounds(d);
    law_hms_adds_up(d);
    let hms = spec_duration_to_hms(d);
    law_timer_text_shape(hms.0, hms.1, hms.2);
    let t = duration_text(d);
    assert(two_digit_value(t, 0) == hms.0);
    assert(two_digit_value(t, 3) == hms.1);
    assert(two_digit_value(t, 6) == hms.2);
}

/// Starting acts on an unstarted timer only: in every other state (running,
/// paused or finished) it changes nothing, whatever the instant.
pub proof fn law_start_only_when_unstarted(s: TimerState, now: int)
    requires
        s.run_state != RunState::Unstarted,
    ensures
        spec_start(s, now) == Ok::<TimerState, TimeError>(s),
{
}

/// Starting an unstarted timer runs a session that expires exactly one
/// session length after `now`, keeping the session length; it fails only
/// when that expiration is not an instant, and then with `InstantOverflow`.
pub proof fn law_start_expires_after_session_length(s: TimerState, now: int)
    requires
        s.wf(),
        s.run_state == RunState::Unstarted,
        is_instant(now),
    ensures
        is_instant(now + s.session_length) ==> ({
            let r = spec_start(s, now);
            &&& r is Ok
            &&& r->Ok_0.session_length == s.session_length
            &&& r->Ok_0.run_state is Running
            &&& r->Ok_0.run_state->Running_0.expiration - now == s.session_length
        }),
        !is_instant(now + s.session_length) ==> spec_start(s, now) == Err::<TimerState, TimeError>(
            TimeError::InstantOverflow,
        ),
{
}

/// Pausing and resuming leave an unstarted or finished timer as it is, at
/// every instant.
pub proof fn law_pause_ignores_unstarted_and_finished(s: TimerState, now: int)
    requires
        s.run_state == RunState::Unstarted || s.run_state == RunState::Finished,
    ensures
        spec_toggle_pause(s, now) == Ok::<TimerState, TimeError>(s),
{
}

/// Pausing a running session keeps exactly the time that was left, and
/// resuming a paused one runs it to expire exactly the time it had left after
/// `now` (or fails with `InstantOverflow` when that is not an instant); the
/// session length is kept.
pub proof fn law_pause_keeps_time_left(s: TimerState, now: int)
    requires
        s.wf(),
        is_instant(now),
    ensures
        s.run_state is Running ==> ({
            let r = spec_toggle_pause(s, now);
            &&& r is Ok
            &&& r->Ok_0.session_length == s.session_length
            &&& r->Ok_0.run_state is Paused
            &&& r->Ok_0.run_state->Paused_0.duration_remaining == s.run_state->Running_0.expiration - now
        }),
        s.run_state is Paused ==> ({
            let left = s.run_state->Paused_0.duration_remaining;
            let r = spec_toggle_pause(s, now);
            if is_instant(now + left) {
                &&& r is Ok
                &&& r->Ok_0.session_length == s.session_length
                &&& r->Ok_0.run_state is Running
                &&& r->Ok_0.run_state->Running_0.expiration - now == left
            } else {
                r == Err::<TimerState, TimeError>(TimeError::InstantOverflow)
            }
        }),
{
}

/// An adjustment moves exactly one value by exactly one minute (up for an
/// increment, down otherwise), and the clock then shows the new value:
/// - unstarted: the session length moves, and the new length is shown; if it
///   would not stay positive nothing changes and nothing is shown;
/// - paused: the time left moves and is shown; if none is left the session
///   finishes, with the alert, and the clock shows zero;
/// - running: the expiration moves; nothing is shown (the next tick does it);
/// - finished: nothing changes and nothing is shown.
/// No alert is raised unless the session finishes.
pub proof fn law_adjust_moves_one_minute(s: TimerState, increment: bool)
    requires
        s.wf(),
    ensures
        spec_adjust(s, increment) is Ok ==> ({
            let t = spec_adjust(s, increment)->Ok_0.0;
            let shown = spec_adjust(s, increment)->Ok_0.1;
            let alert = spec_adjust(s, increment)->Ok_0.2;
            let step: int = if increment { 60000 } else { -60000 };
            &&& alert <==> (t.run_state == RunState::Finished && s.run_state != RunState::Finished)
            &&& s.run_state == RunState::Unstarted ==> (t.run_state == RunState::Unstarted && (
                if s.session_length + step > 0 {
                    t.session_length == s.session_length + step && shown == Some(t.session_length as int)
                } else {
                    t == s && shown is None
                }))
            &&& (s.run_state == RunState::Unstarted && t.session_length != s.session_length) ==> shown
                == Some(t.session_length as int)
            &&& s.run_state is Paused ==> ({
                let left = s.run_state->Paused_0.duration_remaining + step;
                &&& t.session_length == s.session_length
                &&& if left > 0 {
                    t.run_state == RunState::Paused(PausedState { duration_remaining: left as i64 })
                        && shown == Some(left)
                } else {
                    t.run_state == RunState::Finished && shown == Some(0int)
                }
            })
            &&& s.run_state is Running ==> ({
                &&& t.session_length == s.session_length
                &&& t.run_state is Running
                &&& t.run_state->Running_0.expiration == s.run_state->Running_0.expiration + step
                &&& shown is None
            })
            &&& s.run_state == RunState::Finished ==> (t == s && shown is None)
        }),
{
}

/// A tick that does not finish the session leaves the state exactly as it is
/// (it never moves the expiration) and shows the time left until the
/// expiration; for a time left under a hundred hours the clock fields add up
/// to its whole seconds.
pub proof fn law_tick_shows_time_left(s: TimerState, now: int)
    requires
        s.wf(),
        s.run_state is Running,
        s.run_state->Running_0.expiration - now >= 1000,
    ensures
        ({
            let left = s.run_state->Running_0.expiration - now;
            &&& spec_tick(s, now) == (s, Some((spec_duration_to_hms(left), false)))
            &&& left < 100 * 3600 * 1000 ==> ({
                let hms = spec_tick(s, now).1->Some_0.0;
                hms.0 * 3600 + hms.1 * 60 + hms.2 == left / 1000
            })
        }),
{
    let left = s.run_state->Running_0.expiration - now;
    if left < 100 * 3600 * 1000 {
        law_hms_adds_up(left);
    }
}

/// A minute added to a running session shows up at the next tick: the time
/// left at any later tick is a minute more than it would have been.
pub proof fn law_added_minute_reaches_the_clock(s: TimerState, now: int)
    requires
        s.wf(),
        s.run_state is Running,
        is_instant(s.run_state->Running_0.expiration + 60000),
    ensures
        ({
            let t = spec_adjust(s, true)->Ok_0.0;
            let left = t.run_state->Running_0.expiration - now;
            &&& spec_adjust(s, true) is Ok
            &&& t.run_state is Running
            &&& left == (s.run_state->Running_0.expiration - now) + 60000
            &&& left >= 1000 ==> spec_tick(t, now) == (t, Some((spec_duration_to_hms(left), false)))
        }),
{
}

/// A negative clock field between −99 and −1 is written with a minus sign
/// followed by the digits of its magnitude, with no zero padding (as `{:02}`
/// writes it): "-5", "-42".
pub proof fn law_negative_field_text(n: int)
    requires
        -100 < n < 0,
    ensures
        zero_pad_2(n)[0] == '-',
        -n < 10 ==> zero_pad_2(n).len() == 2 && is_digit(zero_pad_2(n)[1]) && digit_value(zero_pad_2(n)[1])
            == -n,
        -n >= 10 ==> zero_pad_2(n).len() == 3 && is_digit(zero_pad_2(n)[1]) && is_digit(zero_pad_2(n)[2])
            && two_digit_value(zero_pad_2(n), 1) == -n,
{
    let m = -n;
    if m >= 10 {
        assert(decimal((m / 10) as nat) == seq![((m / 10) + 48) as char]);
    }
}

/// What follows a hot key in the info bar is `") "`, then the description
/// unchanged, then `" |"` exactly when more items follow.
pub proof fn law_description_tail_shape(description: Seq<char>, last: bool)
    ensures
        ({
            let t = description_tail(description, last);
            &&& t.len() == description.len() + if last { 2int } else { 4int }
            &&& t[0] == ')' && t[1] == ' '
            &&& t.subrange(2, 2 + description.len() as int) == description
            &&& !last ==> t[t.len() - 2] == ' ' && t[t.len() - 1] == '|'
        }),
{
    let t = description_tail(description, last);
    assert(t.subrange(2, 2 + description.len() as int) =~= description);
}

} // verus!
