use std::time::Duration;

use termino::timer::{Countdown, Stopwatch, TimerError, TimerState};

/// Lets `d` pass on the monotonic clock.
fn wait(d: Duration) {
    let start = std::time::Instant::now();
    while start.elapsed() < d {
        std::hint::spin_loop();
    }
}

#[test]
fn test_stopwatch_initial_state() {
    let sw = Stopwatch::new();
    assert_eq!(sw.state(), TimerState::Idle);
    assert_eq!(sw.elapsed(), 0);
    assert!(sw.laps().is_empty());
}

#[test]
fn test_stopwatch_start_transitions_to_running() {
    let mut sw = Stopwatch::new();
    sw.start().unwrap();
    assert_eq!(sw.state(), TimerState::Running);
}

#[test]
fn test_stopwatch_elapsed_increases_while_running() {
    let mut sw = Stopwatch::new();
    sw.start().unwrap();
    wait(Duration::from_millis(50));
    let elapsed = sw.elapsed();
    assert!(elapsed > 0);
    assert!(elapsed < 500);
}

#[test]
fn test_stopwatch_pause_stops_elapsed() {
    let mut sw = Stopwatch::new();
    sw.start().unwrap();
    wait(Duration::from_millis(50));
    sw.pause().unwrap();
    let paused_elapsed = sw.elapsed();
    wait(Duration::from_millis(50));
    assert_eq!(sw.elapsed(), paused_elapsed);
    assert_eq!(sw.state(), TimerState::Paused);
}

#[test]
fn test_stopwatch_resume_continues_elapsed() {
    let mut sw = Stopwatch::new();
    sw.start().unwrap();
    wait(Duration::from_millis(50));
    sw.pause().unwrap();
    let paused_elapsed = sw.elapsed();
    sw.resume().unwrap();
    assert_eq!(sw.state(), TimerState::Running);
    wait(Duration::from_millis(50));
    assert!(sw.elapsed() > paused_elapsed);
}

#[test]
fn test_stopwatch_stop_returns_elapsed() {
    let mut sw = Stopwatch::new();
    sw.start().unwrap();
    wait(Duration::from_millis(50));
    let final_time = sw.stop();
    assert_eq!(sw.state(), TimerState::Stopped);
    assert!(final_time > 0);
    assert_eq!(sw.elapsed(), final_time);
}

#[test]
fn test_stopwatch_lap_recording() {
    let mut sw = Stopwatch::new();
    sw.start().unwrap();
    wait(Duration::from_millis(30));
    let lap1 = sw.lap().unwrap();
    wait(Duration::from_millis(30));
    let lap2 = sw.lap().unwrap();
    sw.stop();

    assert_eq!(sw.laps().len(), 2);
    assert_eq!(lap1.lap, 1);
    assert_eq!(lap2.lap, 2);
    assert!(lap2.total > lap1.total);
    assert!(lap2.split > 0);
}

#[test]
fn test_stopwatch_lap_while_not_running_raises() {
    let mut sw = Stopwatch::new();
    assert!(sw.lap().is_err());
}

#[test]
fn test_stopwatch_pause_while_not_running_raises() {
    let mut sw = Stopwatch::new();
    assert!(sw.pause().is_err());
}

#[test]
fn test_stopwatch_resume_while_not_paused_raises() {
    let mut sw = Stopwatch::new();
    assert!(sw.resume().is_err());
}

#[test]
fn test_stopwatch_start_while_running_raises() {
    let mut sw = Stopwatch::new();
    sw.start().unwrap();
    assert!(sw.start().is_err());
}

#[test]
fn test_stopwatch_start_after_stop() {
    let mut sw = Stopwatch::new();
    sw.start().unwrap();
    wait(Duration::from_millis(30));
    sw.stop();
    sw.start().unwrap();
    assert_eq!(sw.state(), TimerState::Running);
    wait(Duration::from_millis(30));
    assert!(sw.elapsed() > 0);
}

#[test]
fn test_countdown_initial_state() {
    let cd = Countdown::new(10_000);
    assert_eq!(cd.state(), TimerState::Idle);
    assert_eq!(cd.remaining(), 10_000);
    assert_eq!(cd.elapsed(), 0);
    assert!(!cd.is_finished());
}

#[test]
fn test_countdown_start_transitions_to_running() {
    let mut cd = Countdown::new(10_000);
    cd.start().unwrap();
    assert_eq!(cd.state(), TimerState::Running);
}

#[test]
fn test_countdown_remaining_decreases_while_running() {
    let mut cd = Countdown::new(1_000);
    cd.start().unwrap();
    wait(Duration::from_millis(200));
    assert!(cd.remaining() < 1_000);
}

#[test]
fn test_countdown_is_finished_when_time_expires() {
    let mut cd = Countdown::new(100);
    cd.start().unwrap();
    wait(Duration::from_millis(200));
    assert!(cd.is_finished());
    assert_eq!(cd.remaining(), 0);
}

#[test]
fn test_countdown_pause_stops_countdown() {
    let mut cd = Countdown::new(5_000);
    cd.start().unwrap();
    wait(Duration::from_millis(50));
    cd.pause().unwrap();
    let remaining_paused = cd.remaining();
    wait(Duration::from_millis(50));
    assert_eq!(cd.remaining(), remaining_paused);
}

#[test]
fn test_countdown_resume_continues_countdown() {
    let mut cd = Countdown::new(5_000);
    cd.start().unwrap();
    wait(Duration::from_millis(50));
    cd.pause().unwrap();
    let remaining_after_pause = cd.remaining();
    cd.resume().unwrap();
    wait(Duration::from_millis(50));
    assert!(cd.remaining() < remaining_after_pause);
}

#[test]
fn test_countdown_stop_returns_elapsed() {
    let mut cd = Countdown::new(5_000);
    cd.start().unwrap();
    wait(Duration::from_millis(50));
    let final_time = cd.stop();
    assert_eq!(cd.state(), TimerState::Stopped);
    assert!(final_time > 0);
}

#[test]
fn test_countdown_start_while_running_raises() {
    let mut cd = Countdown::new(5_000);
    cd.start().unwrap();
    assert!(cd.start().is_err());
}

#[test]
fn test_countdown_pause_while_not_running_raises() {
    let mut cd = Countdown::new(5_000);
    assert!(cd.pause().is_err());
}

#[test]
fn test_countdown_resume_while_not_paused_raises() {
    let mut cd = Countdown::new(5_000);
    assert!(cd.resume().is_err());
}

// ---- readings given explicitly ----

#[test]
fn stopwatch_errors_name_the_state() {
    let mut sw = Stopwatch::new();
    assert_eq!(sw.pause(), Err(TimerError::CannotPause(TimerState::Idle)));
    assert_eq!(sw.resume(), Err(TimerError::CannotResume(TimerState::Idle)));
    assert_eq!(sw.lap(), Err(TimerError::LapWhenNotRunning(TimerState::Idle)));
    sw.start().unwrap();
    assert_eq!(sw.start(), Err(TimerError::CannotStart(TimerState::Running)));
    sw.pause_with(10).unwrap();
    assert_eq!(sw.start(), Err(TimerError::CannotStart(TimerState::Paused)));
    assert_eq!(sw.lap(), Err(TimerError::LapWhenNotRunning(TimerState::Paused)));
}

#[test]
fn stopwatch_with_readings_accumulates() {
    let mut sw = Stopwatch::new();
    sw.start().unwrap();
    assert_eq!(sw.elapsed_with(250), 250);
    sw.pause_with(250).unwrap();
    // frozen while paused, whatever the clock reads
    assert_eq!(sw.elapsed_with(0), 250);
    assert_eq!(sw.elapsed_with(99_999), 250);
    sw.resume().unwrap();
    assert_eq!(sw.elapsed_with(100), 350);
    assert_eq!(sw.stop_with(100), 350);
    assert_eq!(sw.state(), TimerState::Stopped);
    // stopping again keeps the value
    assert_eq!(sw.stop_with(5_000), 350);
    assert_eq!(sw.elapsed(), 350);
}

#[test]
fn stopwatch_elapsed_saturates() {
    let mut sw = Stopwatch::new();
    sw.start().unwrap();
    sw.pause_with(u64::MAX - 5).unwrap();
    sw.resume().unwrap();
    assert_eq!(sw.elapsed_with(10), u64::MAX);
}

#[test]
fn stopwatch_lap_splits_add_up() {
    let mut sw = Stopwatch::new();
    sw.start().unwrap();
    // a lap's total is the elapsed time at the reading
    let l1 = sw.lap_with(100).unwrap();
    assert_eq!((l1.lap, l1.split, l1.total), (1, 100, 100));
    let l2 = sw.lap_with(300).unwrap();
    assert_eq!((l2.lap, l2.split, l2.total), (2, 200, 300));
    sw.pause_with(400).unwrap();
    sw.resume().unwrap();
    // the paused interval is not counted: 400 before the pause, 10 since
    let l3 = sw.lap_with(10).unwrap();
    assert_eq!((l3.lap, l3.split, l3.total), (3, 110, 410));
    assert_eq!(sw.elapsed_with(10), 410);
    let laps = sw.laps();
    let sum: i128 = laps.iter().map(|l| l.split).sum();
    assert_eq!(sum, laps[2].total as i128);
    assert!(l3.total <= sw.stop_with(25));
    assert_eq!(sw.elapsed(), 425);
}

#[test]
fn stopwatch_resume_adds_reading_to_paused_time() {
    let mut sw = Stopwatch::new();
    sw.start().unwrap();
    sw.pause_with(1_500).unwrap();
    sw.resume().unwrap();
    assert_eq!(sw.elapsed_with(0), 1_500);
    assert_eq!(sw.elapsed_with(250), 1_750);
}

#[test]
fn stopwatch_running_ms_reads_zero_unless_running() {
    let mut sw = Stopwatch::new();
    assert_eq!(sw.running_ms(), 0);
    sw.start().unwrap();
    wait(Duration::from_millis(20));
    assert!(sw.running_ms() >= 19);
    sw.pause().unwrap();
    assert_eq!(sw.running_ms(), 0);
    let cd = Countdown::new(1_000);
    assert_eq!(cd.running_ms(), 0);
}

#[test]
fn stopwatch_restart_clears_laps() {
    let mut sw = Stopwatch::new();
    sw.start().unwrap();
    sw.lap_with(5).unwrap();
    sw.stop_with(20);
    sw.start().unwrap();
    assert!(sw.laps().is_empty());
    assert_eq!(sw.elapsed_with(0), 0);
    let d = Stopwatch::default();
    assert_eq!(d.state(), TimerState::Idle);
}

#[test]
fn countdown_with_readings() {
    let mut cd = Countdown::new(1_000);
    assert_eq!(cd.duration(), 1_000);
    cd.start().unwrap();
    assert_eq!(cd.remaining_with(300), 700);
    assert_eq!(cd.elapsed_with(300), 300);
    assert!(!cd.is_finished_with(999));
    assert!(cd.is_finished_with(1_000));
    assert_eq!(cd.remaining_with(5_000), 0);
    cd.pause_with(400).unwrap();
    assert_eq!(cd.remaining_with(9_999), 600);
    cd.resume().unwrap();
    assert_eq!(cd.stop_with(100), 500);
    assert_eq!(cd.remaining(), 500);
    assert!(!cd.is_finished());
    cd.start().unwrap();
    assert_eq!(cd.elapsed_with(0), 0);
}

#[test]
fn countdown_of_zero_is_finished() {
    let cd = Countdown::new(0);
    assert!(cd.is_finished());
    assert_eq!(cd.remaining(), 0);
}
