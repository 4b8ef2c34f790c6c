use termino::clock::{round_micros, utc_timestamp, utc_timestamp_at};
use termino::display::{
    begin_countdown, begin_pomodoro_phase, begin_stopwatch, classify_key, countdown_session,
    countdown_turn, countdown_turn_with, format_duration, format_split, history_rows, is_lap,
    is_quit, is_space, pomodoro_session, pomodoro_turn, pomodoro_turn_with, progress,
    status_string, stopwatch_session, stopwatch_turn, stopwatch_turn_with,
    CountdownTurn, KeyAction, KeyPress, PomodoroRun, PomodoroTurn, StatusKind, MODIFIERS_CONTROL,
    MODIFIERS_NONE,
};
use termino::pomodoro::{PomodoroPhase, PomodoroTimer};
use termino::storage::SessionData;
use termino::timer::{Countdown, Stopwatch, TimerState};

fn key(c: char, modifiers: u8) -> KeyPress {
    KeyPress { is_press: true, ch: Some(c), modifiers }
}

#[test]
fn format_duration_examples() {
    assert_eq!(format_duration(0), "00:00:00.000");
    assert_eq!(format_duration(65_500), "00:01:05.500");
    assert_eq!(format_duration(330_123), "00:05:30.123");
    assert_eq!(format_duration(3_723_456), "01:02:03.456");
    assert_eq!(format_duration(59_999), "00:00:59.999");
    assert_eq!(format_duration(360_000_000), "100:00:00.000");
    assert_eq!(format_duration(7), "00:00:00.007");
}

#[test]
fn format_split_negative_and_positive() {
    assert_eq!(format_split(60_000), "00:01:00.000");
    assert_eq!(format_split(-500), "00:00:00.500");
    assert_eq!(format_split(-1_250), "00:00:00.750");
    assert_eq!(format_split(-1_000), "00:00:00.000");
}

#[test]
fn key_classification() {
    assert!(is_quit(&key('q', MODIFIERS_NONE)));
    assert!(!is_quit(&key('q', MODIFIERS_CONTROL)));
    assert!(is_quit(&key('c', MODIFIERS_CONTROL)));
    assert!(!is_quit(&key('c', MODIFIERS_NONE)));
    assert!(is_space(&key(' ', 1)));
    assert!(is_lap(&key('l', MODIFIERS_NONE)));
    assert!(!is_lap(&key('l', 1)));
    let release = KeyPress { is_press: false, ch: Some('q'), modifiers: 0 };
    assert!(!is_quit(&release));
    let arrow = KeyPress { is_press: true, ch: None, modifiers: 0 };
    assert_eq!(classify_key(&Some(arrow)), KeyAction::Nothing);
    assert_eq!(classify_key(&None), KeyAction::Nothing);
    assert_eq!(classify_key(&Some(key('q', 0))), KeyAction::Quit);
    assert_eq!(classify_key(&Some(key(' ', 0))), KeyAction::PauseResume);
    assert_eq!(classify_key(&Some(key('l', 0))), KeyAction::Lap);
}

#[test]
fn progress_parts_of_duration() {
    assert_eq!(progress(0, 1000, 100), 0);
    assert_eq!(progress(290, 1000, 100), 29);
    assert_eq!(progress(999, 1000, 30), 29);
    assert_eq!(progress(1000, 1000, 30), 30);
    assert_eq!(progress(5000, 1000, 100), 100);
    assert_eq!(progress(5, 0, 100), 0);
    assert_eq!(progress(u64::MAX - 1, u64::MAX, 100), 99);
}

#[test]
fn stopwatch_loop_turns() {
    let mut sw = Stopwatch::new();
    let mut run = begin_stopwatch(&mut sw).unwrap();
    assert_eq!(sw.state(), TimerState::Running);
    let t = stopwatch_turn(&mut sw, &mut run, None);
    assert!(t.lap.is_none());
    assert!(t.elapsed.is_some());
    let t = stopwatch_turn(&mut sw, &mut run, Some(key('l', 0)));
    assert_eq!(t.lap.unwrap().lap, 1);
    let _ = stopwatch_turn(&mut sw, &mut run, Some(key(' ', 0)));
    assert!(run.paused);
    assert_eq!(sw.state(), TimerState::Paused);
    let t = stopwatch_turn(&mut sw, &mut run, Some(key('l', 0)));
    assert!(t.lap.is_none());
    let _ = stopwatch_turn(&mut sw, &mut run, Some(key(' ', 0)));
    assert!(!run.paused);
    assert_eq!(sw.state(), TimerState::Running);
    let t = stopwatch_turn(&mut sw, &mut run, Some(key('q', 0)));
    assert!(run.done);
    assert!(t.elapsed.is_none());
    assert_eq!(sw.state(), TimerState::Stopped);
    assert_eq!(run.final_elapsed, sw.elapsed());
    let data = stopwatch_session(&sw, &run);
    assert_eq!(data.session_type, "stopwatch");
    assert_eq!(data.status, "completed");
    assert_eq!(data.duration_ms, run.final_elapsed);
    assert_eq!(data.laps.as_ref().unwrap().len(), 1);
    assert!(data.cycles.is_none());
}

#[test]
fn countdown_loop_turns() {
    let mut cd = Countdown::new(60_000);
    let mut run = begin_countdown(&mut cd).unwrap();
    assert_eq!(run.final_duration, 60_000);
    match countdown_turn(&mut cd, &mut run, None) {
        CountdownTurn::Show { remaining, percent, filled } => {
            assert!(remaining <= 60_000);
            assert!(percent <= 100);
            assert!(filled <= 30);
        }
        other => panic!("unexpected {:?}", other),
    }
    let _ = countdown_turn(&mut cd, &mut run, Some(key(' ', 0)));
    assert!(run.paused);
    assert_eq!(cd.state(), TimerState::Paused);
    assert_eq!(countdown_turn(&mut cd, &mut run, Some(key('q', 0))), CountdownTurn::Interrupted);
    assert!(run.interrupted);
    let data = countdown_session(&run);
    assert_eq!(data.session_type, "countdown");
    assert_eq!(data.status, "interrupted");
    assert!(data.duration_ms < 60_000);

    let mut done = Countdown::new(0);
    let mut run = begin_countdown(&mut done).unwrap();
    assert_eq!(countdown_turn(&mut done, &mut run, None), CountdownTurn::TimeUp);
    let data = countdown_session(&run);
    assert_eq!(data.status, "completed");
    assert_eq!(data.duration_ms, 0);
}

#[test]
fn pomodoro_loop_turns() {
    let mut pt = PomodoroTimer::new(0, 0, 0, 1);
    let mut run = PomodoroRun::new();
    let (mut cd, start) = begin_pomodoro_phase(&pt);
    assert_eq!(start.phase, PomodoroPhase::Work);
    assert_eq!(start.work_cycle, Some(1));
    assert_eq!(cd.state(), TimerState::Running);
    let t = pomodoro_turn(&mut pt, &mut cd, &mut run, None, start.duration);
    assert_eq!(t, PomodoroTurn::PhaseDone { finished: PomodoroPhase::Work, work_cycle: Some(1) });
    assert_eq!(pt.phase, PomodoroPhase::LongBreak);
    assert_eq!(pt.cycles.len(), 1);
    let (mut cd, start) = begin_pomodoro_phase(&pt);
    assert_eq!(start.work_cycle, None);
    let t = pomodoro_turn(&mut pt, &mut cd, &mut run, Some(key('q', 0)), start.duration);
    assert_eq!(t, PomodoroTurn::Interrupted);
    assert!(run.interrupted);
    assert_eq!(pt.cycles.len(), 2);
    assert_eq!(pt.cycles[1].cycle_type, "long_break");
    let recorded: u64 = pt.cycles.iter().map(|c| c.duration).sum();
    assert_eq!(run.total_ms, recorded);
    let data = pomodoro_session(&pt, &run);
    assert_eq!(data.duration_ms, recorded);
    assert_eq!(data.session_type, "pomodoro");
    assert_eq!(data.status, "interrupted");
    assert_eq!(data.cycles.as_ref().unwrap().len(), 2);
    assert_eq!(data.cycles.as_ref().unwrap()[0].cycle_type, "work");
    assert!(data.laps.is_none());
}

#[test]
fn pomodoro_turn_shows_progress() {
    let mut pt = PomodoroTimer::new(60_000, 1_000, 1_000, 2);
    let mut run = PomodoroRun::new();
    let (mut cd, start) = begin_pomodoro_phase(&pt);
    match pomodoro_turn(&mut pt, &mut cd, &mut run, None, start.duration) {
        PomodoroTurn::Show { remaining, percent } => {
            assert!(remaining <= 60_000);
            assert!(percent <= 100);
        }
        other => panic!("unexpected {:?}", other),
    }
    let _ = pomodoro_turn(&mut pt, &mut cd, &mut run, Some(key(' ', 0)), start.duration);
    assert_eq!(cd.state(), TimerState::Paused);
    let _ = pomodoro_turn(&mut pt, &mut cd, &mut run, Some(key(' ', 0)), start.duration);
    assert_eq!(cd.state(), TimerState::Running);
    assert_eq!(pt.cycles.len(), 0);
    assert_eq!(run.total_ms, 0);
}

fn session(kind: &str, status: &str, duration_ms: u64) -> SessionData {
    SessionData {
        session_type: kind.to_string(),
        started: "2026-07-13T10:00:00+00:00".to_string(),
        ended: "2026-07-13T10:05:30+00:00".to_string(),
        duration_ms,
        status: status.to_string(),
        laps: None,
        cycles: None,
    }
}

#[test]
fn history_rows_numbered_and_limited() {
    let sessions = vec![
        session("stopwatch", "completed", 330_123),
        session("countdown", "interrupted", 1_000),
        session("pomodoro", "other", 0),
    ];
    let rows = history_rows(&sessions, 10);
    assert_eq!(rows.len(), 3);
    assert_eq!(rows[0].number, 1);
    assert_eq!(rows[0].duration, "00:05:30.123");
    assert_eq!(rows[0].kind, StatusKind::Completed);
    assert_eq!(rows[1].kind, StatusKind::Interrupted);
    assert_eq!(rows[2].kind, StatusKind::Other);
    assert_eq!(rows[2].session_type, "pomodoro");
    assert_eq!(history_rows(&sessions, 2).len(), 2);
    assert_eq!(history_rows(&sessions, 0).len(), 0);
}

#[test]
fn status_strings() {
    assert_eq!(status_string(true), "interrupted");
    assert_eq!(status_string(false), "completed");
}

#[test]
fn stopwatch_turns_with_readings() {
    let mut sw = Stopwatch::new();
    let mut run = begin_stopwatch(&mut sw).unwrap();
    let t = stopwatch_turn_with(&mut sw, &mut run, None, 120);
    assert_eq!(t.elapsed, Some(120));
    let t = stopwatch_turn_with(&mut sw, &mut run, Some(key('l', 0)), 300);
    let lap = t.lap.unwrap();
    assert_eq!((lap.lap, lap.split, lap.total), (1, 300, 300));
    assert_eq!(t.elapsed, Some(300));
    let t = stopwatch_turn_with(&mut sw, &mut run, Some(key(' ', 0)), 500);
    assert!(run.paused);
    assert_eq!(t.elapsed, Some(500));
    let t = stopwatch_turn_with(&mut sw, &mut run, Some(key(' ', 0)), 0);
    assert!(!run.paused);
    assert_eq!(t.elapsed, Some(500));
    let t = stopwatch_turn_with(&mut sw, &mut run, Some(key('q', 0)), 40);
    assert_eq!(t, termino::display::StopwatchTurn { lap: None, elapsed: None });
    assert!(run.done);
    assert_eq!(run.final_elapsed, 540);
    let data = stopwatch_session(&sw, &run);
    assert_eq!(data.duration_ms, 540);
    assert_eq!(data.status, "completed");
    assert!(data.started.len() >= 25 && data.started.ends_with("+00:00"));
    assert!(data.ended.len() >= 25 && data.ended >= data.started);
}

#[test]
fn countdown_turns_with_readings() {
    let mut cd = Countdown::new(10_000);
    let mut run = begin_countdown(&mut cd).unwrap();
    assert_eq!(
        countdown_turn_with(&mut cd, &mut run, None, 2_500),
        CountdownTurn::Show { remaining: 7_500, percent: 25, filled: 7 }
    );
    assert_eq!(countdown_turn_with(&mut cd, &mut run, None, 9_999), CountdownTurn::Show {
        remaining: 1,
        percent: 99,
        filled: 29
    });
    // time is up only when the reading leaves nothing
    assert_eq!(countdown_turn_with(&mut cd, &mut run, None, 10_000), CountdownTurn::TimeUp);
    assert!(!run.interrupted);
    assert_eq!(countdown_session(&run).duration_ms, 10_000);
    let t = countdown_turn_with(&mut cd, &mut run, Some(key(' ', 0)), 4_000);
    assert!(run.paused);
    assert_eq!(t, CountdownTurn::Show { remaining: 6_000, percent: 40, filled: 12 });
    assert_eq!(
        countdown_turn_with(&mut cd, &mut run, Some(key('q', 0)), 0),
        CountdownTurn::Interrupted
    );
    assert_eq!(run.final_duration, 4_000);
    assert_eq!(countdown_turn_with(&mut cd, &mut run, None, 0), CountdownTurn::Halted);
}

#[test]
fn pomodoro_turns_with_readings() {
    let mut pt = PomodoroTimer::new(1_000, 500, 2_000, 2);
    let mut run = PomodoroRun::new();
    let (mut cd, start) = begin_pomodoro_phase(&pt);
    assert_eq!(
        pomodoro_turn_with(&mut pt, &mut cd, &mut run, None, start.duration, 250),
        PomodoroTurn::Show { remaining: 750, percent: 25 }
    );
    assert_eq!(pt.cycles.len(), 0);
    assert_eq!(
        pomodoro_turn_with(&mut pt, &mut cd, &mut run, None, start.duration, 1_000),
        PomodoroTurn::PhaseDone { finished: PomodoroPhase::Work, work_cycle: Some(1) }
    );
    assert_eq!(pt.phase, PomodoroPhase::Break);
    assert_eq!(run.total_ms, 1_000);
    let (mut cd, start) = begin_pomodoro_phase(&pt);
    assert_eq!(
        pomodoro_turn_with(&mut pt, &mut cd, &mut run, Some(key('q', 0)), start.duration, 200),
        PomodoroTurn::Interrupted
    );
    assert!(run.interrupted);
    assert_eq!(run.total_ms, 1_200);
    assert_eq!(pt.cycles[1].duration, 200);
    assert_eq!(pt.cycles[1].cycle_type, "break");
}

#[test]
fn session_timestamps_are_rfc3339() {
    let t = utc_timestamp();
    let b = t.as_bytes();
    assert!(t.len() >= 25);
    assert_eq!((b[4], b[7], b[10], b[13], b[16]), (b'-', b'-', b'T', b':', b':'));
    assert!(t.ends_with("+00:00"));
    assert!(t.as_str() > "2020");
}

#[test]
fn readings_round_to_nearest_millisecond() {
    assert_eq!(round_micros(0), 0);
    assert_eq!(round_micros(499), 0);
    assert_eq!(round_micros(500), 1);
    assert_eq!(round_micros(1_999_600), 2_000);
    assert_eq!(round_micros(1_999_400), 1_999);
    assert_eq!(round_micros(u128::MAX), u64::MAX);
}

#[test]
fn timestamps_of_given_readings() {
    assert_eq!(utc_timestamp_at(Some((1_431_648_000, 0))), "2015-05-15T00:00:00+00:00");
    assert_eq!(utc_timestamp_at(Some((0, 500_000_000))), "1970-01-01T00:00:00.500+00:00");
    assert_eq!(utc_timestamp_at(Some((0, 0))), "1970-01-01T00:00:00+00:00");
    // before 1970, or beyond what chrono represents: the epoch
    assert_eq!(utc_timestamp_at(None), "1970-01-01T00:00:00+00:00");
    assert_eq!(utc_timestamp_at(Some((i64::MAX as u64, 0))), "1970-01-01T00:00:00+00:00");
    assert_eq!(utc_timestamp_at(Some((u64::MAX, 0))), "1970-01-01T00:00:00+00:00");
}
