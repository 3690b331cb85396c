//! The `HH:MM:SS` text that the timer shows.

use vstd::prelude::*;
use vstd::string::StringExecFns;
use crate::time::{duration_to_hms, spec_duration_to_hms};

verus! {

/// The character of a decimal digit.
pub open spec fn digit_char(d: int) -> char
    recommends
        0 <= d < 10,
{
    (d + 48) as char
}

/// The decimal digits of a natural number, most significant first, without
/// leading zeros.
pub open spec fn decimal(n: nat) -> Seq<char>
    decreases n,
{
    if n < 10 {
        seq![digit_char(n as int)]
    } else {
        decimal(n / 10) + seq![digit_char((n % 10) as int)]
    }
}

/// An integer written as by the format `{:02}`: a minus sign for negative
/// numbers, then the decimal digits of the magnitude, with zeros put after
/// the sign until the text is at least two characters long.
pub open spec fn zero_pad_2(n: int) -> Seq<char> {
    if n >= 0 {
        if n < 10 {
            seq!['0'] + decimal(n as nat)
        } else {
            decimal(n as nat)
        }
    } else {
        seq!['-'] + decimal((-n) as nat)
    }
}

/// The timer text `HH:MM:SS` of three clock fields.
pub open spec fn timer_text(h: int, m: int, s: int) -> Seq<char> {
    zero_pad_2(h) + seq![':'] + zero_pad_2(m) + seq![':'] + zero_pad_2(s)
}

/// The timer text of a duration.
pub open spec fn duration_text(ms: int) -> Seq<char> {
    let hms = spec_duration_to_hms(ms);
    timer_text(hms.0, hms.1, hms.2)
}

fn digit_str(d: u64) -> (s: &'static str)
    requires
        d < 10,
    ensures
        s@ == seq![digit_char(d as int)],
{
    proof {
        reveal_strlit("0");
        reveal_strlit("1");
        reveal_strlit("2");
        reveal_strlit("3");
        reveal_strlit("4");
        reveal_strlit("5");
        reveal_strlit("6");
        reveal_strlit("7");
        reveal_strlit("8");
        reveal_strlit("9");
    }
    match d {
        0 => "0",
        1 => "1",
        2 => "2",
        3 => "3",
        4 => "4",
        5 => "5",
        6 => "6",
        7 => "7",
        8 => "8",
        _ => "9",
    }
}

fn append_decimal(out: &mut String, n: u64)
    ensures
        final(out)@ == old(out)@ + decimal(n as nat),
    decreases n,
{
    if n >= 10 {
        append_decimal(out, n / 10);
    }
    out.append(digit_str(n % 10));
}

fn append_zero_pad_2(out: &mut String, n: i64)
    ensures
        final(out)@ == old(out)@ + zero_pad_2(n as int),
{
    proof {
        reveal_strlit("0");
        reveal_strlit("-");
    }
    if n >= 0 {
        if n < 10 {
            out.append("0");
        }
        append_decimal(out, n as u64);
    } else {
        out.append("-");
        let magnitude: u64 = ((-(n + 1)) as u64) + 1;
        append_decimal(out, magnitude);
    }
}

/// Writes three clock fields as `HH:MM:SS`, each field zero-padded to two
/// characters (`{:02}`).
pub fn hms_to_timer_string(h: i64, m: i64, s: i64) -> (text: String)
    ensures
        text@ == timer_text(h as int, m as int, s as int),
{
    proof {
        reveal_strlit(":");
    }
    let mut text = String::new();
    append_zero_pad_2(&mut text, h);
    text.append(":");
    append_zero_pad_2(&mut text, m);
    text.append(":");
    append_zero_pad_2(&mut text, s);
    text
}

/// The timer text of a duration given in milliseconds.
pub fn duration_to_timer_string(dur: i64) -> (text: String)
    ensures
        text@ == duration_text(dur as int),
{
    let (h, m, s) = duration_to_hms(dur);
    hms_to_timer_string(h, m, s)
}

} // verus!
