//! A pomodoro-style session timer: the time model, the timer's state
//! machine, and the text that the terminal interface shows.

pub mod time;
pub mod util;
pub mod timer;
pub mod tui;
pub mod cli;
pub mod laws;

