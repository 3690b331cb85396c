//! Time is counted in whole milliseconds: an instant is the number of
//! milliseconds since the Unix epoch (UTC), a duration is a signed number of
//! milliseconds. The bounds are those of the calendar library that supplies
//! the clock: durations lie within `±i64::MAX` ms and instants within the
//! proleptic Gregorian years −262143 ..= 262142.

use vstd::prelude::*;

verus! {

/// Largest representable duration, in milliseconds.
pub const MAX_DELTA_MS: i64 = 9223372036854775807;

/// Smallest representable duration, in milliseconds.
pub const MIN_DELTA_MS: i64 = -9223372036854775807;

/// Latest representable instant (262142-12-31T23:59:59.999Z), in milliseconds since the epoch.
pub const MAX_INSTANT_MS: i64 = 8210266876799999;

/// Earliest representable instant (−262143-01-01T00:00:00Z), in milliseconds since the epoch.
pub const MIN_INSTANT_MS: i64 = -8334601315200000;

/// Milliseconds in a second.
pub const MS_PER_SECOND: i64 = 1000;

/// Milliseconds in a minute.
pub const MS_PER_MINUTE: i64 = 60000;

/// A value that a duration can take.
pub open spec fn is_delta(ms: int) -> bool {
    MIN_DELTA_MS <= ms <= MAX_DELTA_MS
}

/// A value that an instant can take.
pub open spec fn is_instant(ms: int) -> bool {
    MIN_INSTANT_MS <= ms <= MAX_INSTANT_MS
}

/// Integer division rounding toward zero (the division of machine integers).
pub open spec fn trunc_div(a: int, b: int) -> int
    recommends
        b > 0,
{
    if a >= 0 {
        a / b
    } else {
        -((-a) / b)
    }
}

/// The remainder that goes with `trunc_div`: it has the sign of `a`.
pub open spec fn trunc_rem(a: int, b: int) -> int
    recommends
        b > 0,
{
    a - b * trunc_div(a, b)
}

/// The number of whole seconds in a duration, rounded toward zero.
pub open spec fn whole_seconds(ms: int) -> int {
    trunc_div(ms, 1000)
}

/// The clock reading of a duration: whole hours modulo 100, whole minutes
/// modulo 60 and whole seconds modulo 60, each rounded toward zero and
/// carrying the sign of the duration.
pub open spec fn spec_duration_to_hms(ms: int) -> (int, int, int) {
    let secs = whole_seconds(ms);
    (trunc_rem(trunc_div(secs, 3600), 100), trunc_rem(trunc_div(secs, 60), 60), trunc_rem(secs, 60))
}

proof fn lemma_trunc_of_neg(x: int, b: int)
    requires
        x >= 0,
        b > 0,
    ensures
        trunc_div(-x, b) == -(x / b),
        trunc_rem(-x, b) == -(x % b),
{
    if x == 0 {
        assert(trunc_div(-x, b) == 0);
    }
    assert(x == b * (x / b) + x % b) by (nonlinear_arith)
        requires
            b > 0,
    ;
    assert(b * (-(x / b)) == -(b * (x / b))) by (nonlinear_arith);
}

proof fn lemma_trunc_of_nonneg(x: int, b: int)
    requires
        x >= 0,
        b > 0,
    ensures
        trunc_div(x, b) == x / b,
        trunc_rem(x, b) == x % b,
{
    assert(x == b * (x / b) + x % b) by (nonlinear_arith)
        requires
            b > 0,
    ;
}

/// Splits a duration into the hours, minutes and seconds that the timer shows.
pub fn duration_to_hms(dur: i64) -> (hms: (i64, i64, i64))
    ensures
        (hms.0 as int, hms.1 as int, hms.2 as int) == spec_duration_to_hms(dur as int),
        dur >= 0 ==> 0 <= hms.0 < 100 && 0 <= hms.1 < 60 && 0 <= hms.2 < 60,
        dur < 0 ==> -100 < hms.0 <= 0 && -60 < hms.1 <= 0 && -60 < hms.2 <= 0,
{
    let neg = dur < 0;
    let a: u64 = if neg {
        ((-(dur + 1)) as u64) + 1
    } else {
        dur as u64
    };
    let secs = a / 1000;
    let hours = secs / 3600;
    let minutes = secs / 60;
    let h = hours % 100;
    let m = minutes % 60;
    let s = secs % 60;
    proof {
        let ghost ai = a as int;
        let ghost si = secs as int;
        if neg {
            assert(ai == -(dur as int));
            lemma_trunc_of_neg(ai, 1000);
            lemma_trunc_of_neg(si, 3600);
            lemma_trunc_of_neg(si, 60);
            lemma_trunc_of_neg(si, 60);
            lemma_trunc_of_neg(hours as int, 100);
            lemma_trunc_of_neg(minutes as int, 60);
        } else {
            lemma_trunc_of_nonneg(ai, 1000);
            lemma_trunc_of_nonneg(si, 3600);
            lemma_trunc_of_nonneg(si, 60);
            lemma_trunc_of_nonneg(hours as int, 100);
            lemma_trunc_of_nonneg(minutes as int, 60);
        }
    }
    if neg {
        (-(h as i64), -(m as i64), -(s as i64))
    } else {
        (h as i64, m as i64, s as i64)
    }
}

} // verus!
