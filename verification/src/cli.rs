//! The timer's options: whether to start at once, and the session length.

use vstd::prelude::*;
use crate::time::MS_PER_MINUTE;

verus! {

/// The session length when none is given: twenty seconds, in milliseconds.
pub const DEFAULT_SESSION_MILLIS: i64 = 1000 * 20;

/// What the command line asks for.
#[derive(Debug, Clone, Copy, PartialEq, Eq, Structural)]
pub struct Options {
    /// Start the timer as soon as the program runs.
    pub start: bool,
    /// The session length, in milliseconds.
    pub duration: i64,
}

impl Options {
    /// The defaults: start at once, with the default session length.
    pub fn new() -> (o: Self)
        ensures
            o.start,
            o.duration == DEFAULT_SESSION_MILLIS,
    {
        Options { start: true, duration: DEFAULT_SESSION_MILLIS }
    }
}

/// The options from the parsed command line: the `--start` flag, and the session length in minutes if `--duration` was given (else
/// the default).
pub fn options_from_args(start: bool, minutes: Option<u32>) -> (o: Options)
    ensures
        o.start == start,
        o.duration == match minutes {
            Some(m) => m * MS_PER_MINUTE,
            None => DEFAULT_SESSION_MILLIS as int,
        },
{
    let mut options = Options::new();
    options.start = start;
    if let Some(m) = minutes {
        options.duration = (m as i64) * MS_PER_MINUTE;
    }
    options
}

} // verus!
