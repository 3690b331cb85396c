# tomato_timer

A pomodoro-style terminal timer. The library (`src/`) holds the timer's logic,
verified with Verus; `app/` is the terminal program around it.

- `src/time.rs`: the time model (milliseconds; the range of the clock) and the
  split of a duration into hours, minutes and seconds.
- `src/util.rs`: the `HH:MM:SS` clock text.
- `src/timer.rs`: the timer's state machine (start, pause / resume, reset,
  add / take off a minute, clock tick), each operation specified by a spec
  function of the same name.
- `src/tui.rs`: the hot-key info bar as styled spans.
- `src/cli.rs`: the options from the command line.
- `src/laws.rs`: properties that span several operations.
- `app/`: command-line parsing, the cursive interface, the clock, and the
  update loop that drives the state machine.
