use tomato_timer::cli::{options_from_args, Options, DEFAULT_SESSION_MILLIS};
use tomato_timer::time::{duration_to_hms, MAX_DELTA_MS, MAX_INSTANT_MS, MIN_INSTANT_MS};
use tomato_timer::timer::{PausedState, RunState, RunningState, TimeError, TimerState};
use tomato_timer::tui::{control_info_items, info_bar_text, InfoBarItem, SpanStyle};
use tomato_timer::util::{duration_to_timer_string, hms_to_timer_string};

const MINUTE: i64 = 60_000;

// ---- clock text ----

#[test]
fn timer_string_pads_each_field_to_two_digits() {
    assert_eq!(hms_to_timer_string(1, 2, 3), "01:02:03");
    assert_eq!(hms_to_timer_string(0, 0, 0), "00:00:00");
    assert_eq!(hms_to_timer_string(12, 34, 56), "12:34:56");
    assert_eq!(hms_to_timer_string(99, 59, 59), "99:59:59");
}

#[test]
fn timer_string_matches_std_formatting_on_edge_values() {
    for &(h, m, s) in &[(100i64, 5i64, 7i64), (-1, 0, -5), (-12, -34, -56), (i64::MIN, i64::MAX, 10)] {
        assert_eq!(hms_to_timer_string(h, m, s), format!("{:02}:{:02}:{:02}", h, m, s));
    }
    assert_eq!(hms_to_timer_string(-1, 0, -5), "-1:00:-5");
}

#[test]
fn hms_splits_a_duration() {
    assert_eq!(duration_to_hms(3_723_000), (1, 2, 3));
    assert_eq!(duration_to_hms(59_999), (0, 0, 59));
    assert_eq!(duration_to_hms(0), (0, 0, 0));
    assert_eq!(duration_to_hms(999), (0, 0, 0));
}

#[test]
fn hms_wraps_hours_at_one_hundred() {
    assert_eq!(duration_to_hms(100 * 3_600_000), (0, 0, 0));
    assert_eq!(duration_to_hms(101 * 3_600_000 + 61_000), (1, 1, 1));
}

#[test]
fn hms_of_negative_duration_rounds_toward_zero() {
    assert_eq!(duration_to_hms(-61_500), (0, -1, -1));
    assert_eq!(duration_to_hms(-999), (0, 0, 0));
    assert_eq!(duration_to_hms(-3_723_000), (-1, -2, -3));
    // i64::MIN milliseconds: 9223372036854775 whole seconds, negated.
    let secs: i64 = 9_223_372_036_854_775;
    assert_eq!(duration_to_hms(i64::MIN), (-((secs / 3600) % 100), -((secs / 60) % 60), -(secs % 60)));
}

#[test]
fn duration_text_of_default_session() {
    assert_eq!(duration_to_timer_string(DEFAULT_SESSION_MILLIS), "00:00:20");
    assert_eq!(duration_to_timer_string(25 * MINUTE), "00:25:00");
    assert_eq!(duration_to_timer_string(0), "00:00:00");
}

// ---- info bar ----

#[test]
fn info_bar_item_new_copies_its_text() {
    let item = InfoBarItem::new("s", "start timer");
    assert_eq!(item.key, "s");
    assert_eq!(item.description, "start timer");
}

#[test]
fn info_bar_of_no_items_is_empty() {
    assert!(info_bar_text(&[]).is_empty());
}

#[test]
fn info_bar_separates_all_but_the_last_item() {
    let items = vec![InfoBarItem::new("s", "start timer"), InfoBarItem::new("q", "quit")];
    let spans = info_bar_text(&items);
    let got: Vec<(&str, SpanStyle)> = spans.iter().map(|s| (s.text.as_str(), s.style)).collect();
    assert_eq!(
        got,
        vec![
            (" (", SpanStyle::Plain),
            ("s", SpanStyle::HotKey),
            (") start timer |", SpanStyle::Plain),
            (" (", SpanStyle::Plain),
            ("q", SpanStyle::HotKey),
            (") quit", SpanStyle::Plain),
        ]
    );
}

#[test]
fn info_bar_of_the_controls_reads_as_expected() {
    let spans = info_bar_text(&control_info_items());
    let text: String = spans.iter().map(|s| s.text.as_str()).collect();
    assert_eq!(
        text,
        " (s) start timer | (p) pause toggle | (r) reset timer | (q) quit | (↑↓) add / sub time"
    );
    let hot: Vec<&str> =
        spans.iter().filter(|s| s.style == SpanStyle::HotKey).map(|s| s.text.as_str()).collect();
    assert_eq!(hot, vec!["s", "p", "r", "q", "↑↓"]);
}

// ---- options ----

#[test]
fn default_options() {
    let o = Options::new();
    assert!(o.start);
    assert_eq!(o.duration, 20_000);
}

#[test]
fn options_from_command_line() {
    assert_eq!(options_from_args(false, None), Options { start: false, duration: 20_000 });
    assert_eq!(
        options_from_args(true, Some(25)),
        Options { start: true, duration: 25 * MINUTE }
    );
    assert_eq!(options_from_args(false, Some(0)), Options { start: false, duration: 0 });
    assert_eq!(
        options_from_args(false, Some(u32::MAX)),
        Options { start: false, duration: u32::MAX as i64 * MINUTE }
    );
}

// ---- the state machine ----

fn running(expiration: i64) -> RunState {
    RunState::Running(RunningState { expiration })
}

fn paused(duration_remaining: i64) -> RunState {
    RunState::Paused(PausedState { duration_remaining })
}

#[test]
fn new_timer_is_unstarted() {
    let t = TimerState::new(25 * MINUTE);
    assert_eq!(t.session_length, 25 * MINUTE);
    assert_eq!(t.run_state, RunState::Unstarted);
}

#[test]
fn start_runs_the_session_length() {
    let mut t = TimerState::new(20_000);
    assert_eq!(t.start(1_000), Ok(()));
    assert_eq!(t.run_state, running(21_000));
    // starting again changes nothing
    assert_eq!(t.start(5_000), Ok(()));
    assert_eq!(t.run_state, running(21_000));
}

#[test]
fn start_uses_the_adjusted_session_length() {
    let mut t = TimerState::new(5 * MINUTE);
    let e = t.adjust(true).unwrap();
    assert_eq!(e.display.as_deref(), Some("00:06:00"));
    assert!(!e.alert);
    assert_eq!(t.start(0), Ok(()));
    assert_eq!(t.run_state, running(6 * MINUTE));
}

#[test]
fn start_past_the_calendar_fails_and_keeps_the_state() {
    let mut t = TimerState::new(MAX_DELTA_MS);
    assert_eq!(t.start(0), Err(TimeError::InstantOverflow));
    assert_eq!(t.run_state, RunState::Unstarted);
}

#[test]
fn tick_shows_time_left_and_finishes_under_a_second() {
    let mut t = TimerState::new(20_000);
    t.start(0).unwrap();
    let u = t.tick(1_500).unwrap();
    assert_eq!(u.hms, (0, 0, 18));
    assert!(!u.finished);
    let u = t.tick(19_000).unwrap();
    assert_eq!(u.hms, (0, 0, 1));
    assert!(!u.finished);
    let u = t.tick(19_001).unwrap();
    assert_eq!(u.hms, (0, 0, 0));
    assert!(u.finished);
    assert_eq!(t.run_state, RunState::Finished);
    assert!(t.tick(19_002).is_none());
}

#[test]
fn tick_when_not_running_stops() {
    let mut t = TimerState::new(20_000);
    assert!(t.tick(0).is_none());
    assert_eq!(t.run_state, RunState::Unstarted);
    t.start(0).unwrap();
    t.toggle_pause(5_000).unwrap();
    assert!(t.tick(6_000).is_none());
    assert_eq!(t.run_state, paused(15_000));
}

#[test]
fn pause_and_resume() {
    let mut t = TimerState::new(20_000);
    t.start(0).unwrap();
    assert_eq!(t.toggle_pause(5_000), Ok(()));
    assert_eq!(t.run_state, paused(15_000));
    assert_eq!(t.toggle_pause(100_000), Ok(()));
    assert_eq!(t.run_state, running(115_000));
}

#[test]
fn pause_does_nothing_when_unstarted_or_finished() {
    let mut t = TimerState::new(20_000);
    assert_eq!(t.toggle_pause(0), Ok(()));
    assert_eq!(t.run_state, RunState::Unstarted);
    t.run_state = RunState::Finished;
    assert_eq!(t.toggle_pause(0), Ok(()));
    assert_eq!(t.run_state, RunState::Finished);
}

#[test]
fn resume_past_the_calendar_fails() {
    let mut t = TimerState { session_length: 20_000, run_state: paused(MINUTE) };
    assert_eq!(t.toggle_pause(MAX_INSTANT_MS), Err(TimeError::InstantOverflow));
    assert_eq!(t.run_state, paused(MINUTE));
}

#[test]
fn reset_only_after_finish() {
    let mut t = TimerState::new(20_000);
    assert!(t.reset().is_none());
    t.start(0).unwrap();
    assert!(t.reset().is_none());
    assert_eq!(t.run_state, running(20_000));
    t.tick(20_000).unwrap();
    assert_eq!(t.reset().as_deref(), Some("00:00:20"));
    assert_eq!(t.run_state, RunState::Unstarted);
    assert_eq!(t.session_length, 20_000);
}

#[test]
fn adjust_unstarted_changes_session_length_but_never_to_zero() {
    let mut t = TimerState::new(MINUTE);
    let e = t.adjust(false).unwrap();
    assert!(e.display.is_none());
    assert!(!e.alert);
    assert_eq!(t.session_length, MINUTE);
    let e = t.adjust(true).unwrap();
    assert_eq!(e.display.as_deref(), Some("00:02:00"));
    assert_eq!(t.session_length, 2 * MINUTE);
}

#[test]
fn adjust_paused_changes_time_left_and_can_finish() {
    let mut t = TimerState { session_length: 20_000, run_state: paused(90_000) };
    let e = t.adjust(true).unwrap();
    assert_eq!(e.display.as_deref(), Some("00:02:30"));
    assert!(!e.alert);
    assert_eq!(t.run_state, paused(150_000));
    t.adjust(false).unwrap();
    let e = t.adjust(false).unwrap();
    assert_eq!(e.display.as_deref(), Some("00:00:30"));
    let e = t.adjust(false).unwrap();
    assert_eq!(e.display.as_deref(), Some("00:00:00"));
    assert!(e.alert);
    assert_eq!(t.run_state, RunState::Finished);
}

#[test]
fn adjust_running_moves_the_expiration() {
    let mut t = TimerState { session_length: 20_000, run_state: running(50_000) };
    let e = t.adjust(false).unwrap();
    assert!(e.display.is_none());
    assert!(!e.alert);
    assert_eq!(t.run_state, running(-10_000));
    t.adjust(true).unwrap();
    assert_eq!(t.run_state, running(50_000));
}

#[test]
fn adjust_finished_does_nothing() {
    let mut t = TimerState { session_length: 20_000, run_state: RunState::Finished };
    let e = t.adjust(true).unwrap();
    assert!(e.display.is_none());
    assert!(!e.alert);
    assert_eq!(t.run_state, RunState::Finished);
}

#[test]
fn adjust_errors_leave_the_state() {
    let mut t = TimerState::new(MAX_DELTA_MS);
    assert!(matches!(t.adjust(true), Err(TimeError::DeltaOverflow)));
    assert_eq!(t.session_length, MAX_DELTA_MS);
    let mut t = TimerState { session_length: 1, run_state: paused(-MAX_DELTA_MS) };
    assert!(matches!(t.adjust(false), Err(TimeError::DeltaOverflow)));
    assert_eq!(t.run_state, paused(-MAX_DELTA_MS));
    let mut t = TimerState { session_length: 1, run_state: running(MIN_INSTANT_MS) };
    assert!(matches!(t.adjust(false), Err(TimeError::InstantOverflow)));
    assert_eq!(t.run_state, running(MIN_INSTANT_MS));
}

// ---- laws on concrete values ----

#[test]
fn pausing_keeps_the_time_left() {
    let mut t = TimerState::new(25 * MINUTE);
    t.start(1_000).unwrap();
    t.toggle_pause(61_000).unwrap();
    t.toggle_pause(500_000).unwrap();
    let left_before = 25 * MINUTE + 1_000 - 61_000;
    match t.run_state {
        RunState::Running(r) => assert_eq!(r.expiration - 500_000, left_before),
        other => panic!("expected a running session, got {:?}", other),
    }
    assert_eq!(t.session_length, 25 * MINUTE);
}

#[test]
fn finished_stays_finished_until_reset() {
    let mut t = TimerState { session_length: 20_000, run_state: RunState::Finished };
    t.start(0).unwrap();
    t.toggle_pause(0).unwrap();
    t.adjust(true).unwrap();
    t.adjust(false).unwrap();
    assert!(t.tick(0).is_none());
    assert_eq!(t.run_state, RunState::Finished);
    assert!(t.reset().is_some());
    assert_eq!(t, TimerState::new(20_000));
}

#[test]
fn adding_and_removing_a_minute_round_trips() {
    for start in [TimerState::new(3 * MINUTE), TimerState { session_length: 1, run_state: paused(150_000) }, TimerState {
        session_length: 1,
        run_state: running(7_777),
    }] {
        for inc in [true, false] {
            let mut t = start;
            t.adjust(inc).unwrap();
            t.adjust(!inc).unwrap();
            assert_eq!(t, start);
        }
    }
}

#[test]
fn session_length_never_becomes_non_positive() {
    let mut t = TimerState::new(MINUTE);
    for _ in 0..5 {
        t.adjust(false).unwrap();
        assert!(t.session_length > 0);
    }
    assert_eq!(t.session_length, MINUTE);
}

#[test]
fn a_started_session_shows_its_full_length() {
    let mut t = TimerState::new(25 * MINUTE);
    t.start(123_456).unwrap();
    let u = t.tick(123_456).unwrap();
    assert_eq!(u.hms, (0, 25, 0));
    assert!(!u.finished);
}

#[test]
fn the_finishing_tick_is_the_last() {
    let mut t = TimerState::new(500);
    t.start(0).unwrap();
    let u = t.tick(0).unwrap();
    assert!(u.finished);
    assert!(t.tick(1_000_000).is_none());
}

#[test]
fn clock_fields_add_up_and_text_has_eight_characters() {
    for ms in [0i64, 999, 1_000, 3_599_999, 3_723_000, 99 * 3_600_000 + 59 * 60_000 + 59_999] {
        let (h, m, s) = duration_to_hms(ms);
        assert_eq!(h * 3600 + m * 60 + s, ms / 1000);
        let text = hms_to_timer_string(h, m, s);
        assert_eq!(text.len(), 8);
        assert_eq!(&text[2..3], ":");
        assert_eq!(&text[5..6], ":");
    }
}

#[test]
fn finishing_always_raises_the_alert() {
    // by a tick
    let mut t = TimerState::new(2_000);
    t.start(0).unwrap();
    let u = t.tick(1_001).unwrap();
    assert!(u.finished);
    assert_eq!(t.run_state, RunState::Finished);
    // by taking the last minute off a paused session
    let mut t = TimerState { session_length: 2_000, run_state: paused(MINUTE) };
    let e = t.adjust(false).unwrap();
    assert!(e.alert);
    assert_eq!(t.run_state, RunState::Finished);
    // an adjustment that does not finish raises none
    let mut t = TimerState { session_length: 2_000, run_state: paused(MINUTE + 1) };
    let e = t.adjust(false).unwrap();
    assert!(!e.alert);
    assert_eq!(t.run_state, paused(1));
}
