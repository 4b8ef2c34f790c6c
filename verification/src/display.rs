//! What the terminal shows: durations, progress, key presses, and the
//! decisions taken at each turn of the timer loops.
use crate::clock::{timestamp_text, utc_timestamp};
use crate::pomodoro::{phase_label, PomodoroPhase, PomodoroTimer};
use crate::storage::{SessionCycle, SessionData, SessionLap};
use crate::text::{padded, push_char, push_padded};
use crate::timer::{
    cd_elapsed, cd_paused, cd_remaining, cd_resumed, cd_started, cd_stopped, sw_elapsed,
    sw_lapped, sw_next_lap, sw_paused, sw_resumed, sw_stopped, Countdown, CountdownView, Lap,
    Stopwatch, StopwatchView, TimerError, TimerState,
};
use vstd::prelude::*;

verus! {

/// `ms` milliseconds as `HH:MM:SS.mmm`; the hours take more digits when
/// there are a hundred or more.
pub open spec fn duration_text(ms: u64) -> Seq<char> {
    let secs = ms / 1000;
    let hours = secs / 3600;
    let minutes = (secs % 3600) / 60;
    let rest = secs % 60;
    let millis = ms % 1000;
    padded(hours as nat, 2) + seq![':'] + padded(minutes as nat, 2) + seq![':'] + padded(
        rest as nat,
        2,
    ) + seq!['.'] + padded(millis as nat, 3)
}

/// Format a duration of `ms` milliseconds as `HH:MM:SS.mmm`.
pub fn format_duration(ms: u64) -> (r: String)
    ensures
        r@ == duration_text(ms),
{
    let secs = ms / 1000;
    let hours = secs / 3600;
    let minutes = (secs % 3600) / 60;
    let rest = secs % 60;
    let millis = ms % 1000;
    let mut s = String::new();
    push_padded(&mut s, hours, 2);
    push_char(&mut s, ':');
    push_padded(&mut s, minutes, 2);
    push_char(&mut s, ':');
    push_padded(&mut s, rest, 2);
    push_char(&mut s, '.');
    push_padded(&mut s, millis, 3);
    assert(s@ =~= duration_text(ms));
    s
}

/// `ms` milliseconds, which may be negative, shown as `format_duration`
/// shows them: a negative amount shows no whole seconds and the
/// milliseconds by which it exceeds the second below it.
pub open spec fn signed_duration_text(ms: i128) -> Seq<char> {
    if ms >= 0 {
        duration_text(if ms > u64::MAX { u64::MAX } else { ms as u64 })
    } else {
        seq!['0', '0', ':', '0', '0', ':', '0', '0', '.'] + padded((ms % 1000) as nat, 3)
    }
}

/// Format a lap split, which is negative when a lap took less time than the
/// total of the lap before it showed.
pub fn format_split(ms: i128) -> (r: String)
    ensures
        r@ == signed_duration_text(ms),
{
    if ms >= 0 {
        let capped: u64 = if ms > u64::MAX as i128 {
            u64::MAX
        } else {
            ms as u64
        };
        format_duration(capped)
    } else {
        let below = ms % 1000;
        let rem: u64 = if below < 0 {
            (below + 1000) as u64
        } else {
            below as u64
        };
        assert(rem as int == ms % 1000);
        let mut s = String::new();
        push_char(&mut s, '0');
        push_char(&mut s, '0');
        push_char(&mut s, ':');
        push_char(&mut s, '0');
        push_char(&mut s, '0');
        push_char(&mut s, ':');
        push_char(&mut s, '0');
        push_char(&mut s, '0');
        push_char(&mut s, '.');
        push_padded(&mut s, rem, 3);
        assert(s@ =~= signed_duration_text(ms));
        s
    }
}

// ------------------------------------------------------------------
// Keys
// ------------------------------------------------------------------

/// The modifier bits of a key press with no modifier held.
pub const MODIFIERS_NONE: u8 = 0;

/// The modifier bit of the Control key.
pub const MODIFIERS_CONTROL: u8 = 2;

/// A key event as the terminal reports it: whether the key went down (not
/// a repeat or a release), the character it types if it types one, and the
/// modifier keys held, as bits (Shift 1, Control 2, Alt 4, Super 8, Hyper 16,
/// Meta 32).
#[derive(Debug, Clone, Copy, PartialEq, Eq, Structural)]
pub struct KeyPress {
    pub is_press: bool,
    pub ch: Option<char>,
    pub modifiers: u8,
}

/// `q` alone, or Control and `c`: stop.
pub open spec fn quits(k: KeyPress) -> bool {
    k.is_press && ((k.ch == Some('q') && k.modifiers == MODIFIERS_NONE) || (k.ch == Some('c')
        && k.modifiers == MODIFIERS_CONTROL))
}

/// The space bar, with any modifiers: pause or resume.
pub open spec fn toggles(k: KeyPress) -> bool {
    k.is_press && k.ch == Some(' ')
}

/// `l` alone: record a lap.
pub open spec fn laps_key(k: KeyPress) -> bool {
    k.is_press && k.ch == Some('l') && k.modifiers == MODIFIERS_NONE
}

/// Check if a key event is a quit signal (q or Ctrl+C).
pub fn is_quit(key: &KeyPress) -> (r: bool)
    ensures
        r == quits(*key),
{
    key.is_press && match key.ch {
        Some(c) => (c == 'q' && key.modifiers == MODIFIERS_NONE) || (c == 'c' && key.modifiers
            == MODIFIERS_CONTROL),
        None => false,
    }
}

/// Check if a key event is a space (pause/resume).
pub fn is_space(key: &KeyPress) -> (r: bool)
    ensures
        r == toggles(*key),
{
    key.is_press && match key.ch {
        Some(c) => c == ' ',
        None => false,
    }
}

/// Check if a key event is 'l' (lap).
pub fn is_lap(key: &KeyPress) -> (r: bool)
    ensures
        r == laps_key(*key),
{
    key.is_press && match key.ch {
        Some(c) => c == 'l' && key.modifiers == MODIFIERS_NONE,
        None => false,
    }
}

/// What a turn of a timer loop does with the key read in it, if any.
#[derive(Debug, Clone, Copy, PartialEq, Eq, Structural)]
pub enum KeyAction {
    Quit,
    PauseResume,
    Lap,
    Nothing,
}

/// The action of `key`; quitting takes precedence, then pausing.
pub open spec fn key_action(key: Option<KeyPress>) -> KeyAction {
    match key {
        None => KeyAction::Nothing,
        Some(k) => if quits(k) {
            KeyAction::Quit
        } else if toggles(k) {
            KeyAction::PauseResume
        } else if laps_key(k) {
            KeyAction::Lap
        } else {
            KeyAction::Nothing
        },
    }
}

/// The action of the key read in a turn, if any.
pub fn classify_key(key: &Option<KeyPress>) -> (a: KeyAction)
    ensures
        a == key_action(*key),
{
    match key {
        None => KeyAction::Nothing,
        Some(k) => if is_quit(k) {
            KeyAction::Quit
        } else if is_space(k) {
            KeyAction::PauseResume
        } else if is_lap(k) {
            KeyAction::Lap
        } else {
            KeyAction::Nothing
        },
    }
}

// ------------------------------------------------------------------
// Progress
// ------------------------------------------------------------------

/// The width of the countdown's progress bar, in cells.
pub const BAR_WIDTH: u64 = 30;

/// How many of `parts` equal parts of `duration` have elapsed, at most all of
/// them; none when the duration is zero.
pub open spec fn progress_parts(elapsed: u64, duration: u64, parts: u64) -> int {
    if duration == 0 {
        0
    } else if elapsed >= duration {
        parts as int
    } else {
        (elapsed as int * parts as int) / duration as int
    }
}

/// Whole parts out of `parts` of `duration` that have elapsed.
pub fn progress(elapsed: u64, duration: u64, parts: u64) -> (r: u64)
    ensures
        r == progress_parts(elapsed, duration, parts),
        r <= parts,
{
    if duration == 0 {
        0
    } else if elapsed >= duration {
        parts
    } else {
        assert((elapsed as int) * (parts as int) <= u128::MAX) by (nonlinear_arith)
            requires
                elapsed <= u64::MAX,
                parts <= u64::MAX,
        ;
        let p = (elapsed as u128 * parts as u128) / duration as u128;
        proof {
            let e = elapsed as int;
            let n = parts as int;
            let d = duration as int;
            assert(e * n <= d * n) by (nonlinear_arith)
                requires
                    e < d,
                    n >= 0,
            ;
            assert((e * n) / d <= n) by (nonlinear_arith)
                requires
                    e * n <= d * n,
                    d > 0,
                    n >= 0,
            ;
            assert(e * n >= 0) by (nonlinear_arith)
                requires
                    e >= 0,
                    n >= 0,
            ;
        }
        p as u64
    }
}

// ------------------------------------------------------------------
// The stopwatch loop
// ------------------------------------------------------------------

/// The status recorded for a session.
pub open spec fn status_text(interrupted: bool) -> Seq<char> {
    if interrupted {
        "interrupted"@
    } else {
        "completed"@
    }
}

pub fn status_string(interrupted: bool) -> (r: String)
    ensures
        r@ == status_text(interrupted),
{
    if interrupted {
        String::from_str("interrupted")
    } else {
        String::from_str("completed")
    }
}

/// Where a stopwatch session stands between turns of its loop.
#[derive(Debug, Clone, Copy, PartialEq, Eq, Structural)]
pub struct StopwatchRun {
    pub paused: bool,
    pub done: bool,
    pub final_elapsed: u64,
}

/// What a turn of the stopwatch loop shows: a lap just recorded, and the
/// elapsed time unless the session has ended.
#[derive(Debug, Clone, Copy, PartialEq, Eq, Structural)]
pub struct StopwatchTurn {
    pub lap: Option<Lap>,
    pub elapsed: Option<u64>,
}

/// Starts the stopwatch of a new session.
pub fn begin_stopwatch(sw: &mut Stopwatch) -> (r: Result<StopwatchRun, TimerError>)
    ensures
        r is Err <==> !crate::timer::can_start(old(sw)@.state),
        r is Ok ==> final(sw)@ == crate::timer::sw_started(old(sw)@) && r
            == Ok::<StopwatchRun, TimerError>(StopwatchRun { paused: false, done: false, final_elapsed: 0 }),
        r is Err ==> final(sw)@ == old(sw)@,
{
    match sw.start() {
        Ok(()) => Ok(StopwatchRun { paused: false, done: false, final_elapsed: 0 }),
        Err(e) => Err(e),
    }
}

/// A stopwatch and its session after the key of a turn, and the lap it
/// recorded, the clock reading `ms` since the last start: `q` stops the
/// stopwatch and ends the session; space resumes when the session is paused
/// and pauses a running stopwatch; `l` records a lap while running.
pub open spec fn stopwatch_key_step(v: StopwatchView, run: StopwatchRun, action: KeyAction, ms: u64) -> (
    StopwatchView,
    StopwatchRun,
    Option<Lap>,
) {
    match action {
        KeyAction::Quit => (
            sw_stopped(v, ms),
            StopwatchRun { paused: run.paused, done: true, final_elapsed: sw_elapsed(v, ms) },
            None,
        ),
        KeyAction::PauseResume => if run.paused {
            (
                if v.state == TimerState::Paused {
                    sw_resumed(v)
                } else {
                    v
                },
                StopwatchRun { paused: false, done: run.done, final_elapsed: run.final_elapsed },
                None,
            )
        } else if v.state == TimerState::Running {
            (
                sw_paused(v, ms),
                StopwatchRun { paused: true, done: run.done, final_elapsed: run.final_elapsed },
                None,
            )
        } else {
            (v, run, None)
        },
        KeyAction::Lap => if v.state == TimerState::Running {
            (sw_lapped(v, ms), run, Some(sw_next_lap(v, ms)))
        } else {
            (v, run, None)
        },
        KeyAction::Nothing => (v, run, None),
    }
}

/// A turn of the stopwatch loop, the clock reading `ms` since the last start
/// when the turn begins: the stopwatch and the session after the key, and
/// what the turn shows.
pub open spec fn stopwatch_step(v: StopwatchView, run: StopwatchRun, action: KeyAction, ms: u64) -> (
    StopwatchView,
    StopwatchRun,
    StopwatchTurn,
) {
    let after = stopwatch_key_step(v, run, action, ms);
    (
        after.0,
        after.1,
        StopwatchTurn {
            lap: after.2,
            elapsed: if after.1.done {
                None
            } else {
                Some(sw_elapsed(after.0, ms))
            },
        },
    )
}

/// One turn of the stopwatch loop with the key read in it, the clock reading
/// `ms` since the last start when the turn begins.
pub fn stopwatch_turn_with(
    sw: &mut Stopwatch,
    run: &mut StopwatchRun,
    key: Option<KeyPress>,
    ms: u64,
) -> (t: StopwatchTurn)
    requires
        !old(run).done,
        old(sw)@.state == TimerState::Running ==> old(sw)@.laps.len() < u32::MAX,
    ensures
        (final(sw)@, *final(run), t) == stopwatch_step(old(sw)@, *old(run), key_action(key), ms),
{
    let action = classify_key(&key);
    let mut lap: Option<Lap> = None;
    match action {
        KeyAction::Quit => {
            run.final_elapsed = sw.stop_with(ms);
            run.done = true;
        },
        KeyAction::PauseResume => {
            if run.paused {
                let _ = sw.resume();
                run.paused = false;
            } else if sw.state() == TimerState::Running {
                let _ = sw.pause_with(ms);
                run.paused = true;
            }
        },
        KeyAction::Lap => {
            match sw.lap_with(ms) {
                Ok(l) => {
                    lap = Some(l);
                },
                Err(_) => {},
            }
        },
        KeyAction::Nothing => {},
    }
    if !run.done {
        StopwatchTurn { lap, elapsed: Some(sw.elapsed_with(ms)) }
    } else {
        StopwatchTurn { lap, elapsed: None }
    }
}

/// One turn of the stopwatch loop with the key read in it; the clock is read
/// once, when the turn begins (a stopwatch that is not running reads zero).
pub fn stopwatch_turn(sw: &mut Stopwatch, run: &mut StopwatchRun, key: Option<KeyPress>) -> (t:
    StopwatchTurn)
    requires
        !old(run).done,
        old(sw)@.state == TimerState::Running ==> old(sw)@.laps.len() < u32::MAX,
    ensures
        exists|ms: u64|
            (final(sw)@, *final(run), t) == stopwatch_step(old(sw)@, *old(run), key_action(key), ms),
        old(sw)@.state != TimerState::Running ==> (final(sw)@, *final(run), t) == stopwatch_step(
            old(sw)@,
            *old(run),
            key_action(key),
            0,
        ),
{
    let ms = sw.running_ms();
    stopwatch_turn_with(sw, run, key, ms)
}

/// The log entry of a lap.
pub open spec fn session_lap(l: Lap) -> SessionLap {
    SessionLap { lap: l.lap, split: l.split, total: l.total }
}

/// The session record of a stopwatch session, which ends when it is stopped
/// and saved: its status is `completed`.
pub fn stopwatch_session(sw: &Stopwatch, run: &StopwatchRun) -> (d: SessionData)
    ensures
        exists|r: Option<(u64, u32)>| d.started@ == timestamp_text(r),
        exists|r: Option<(u64, u32)>| d.ended@ == timestamp_text(r),
        d.session_type@ == "stopwatch"@,
        d.duration_ms == run.final_elapsed,
        d.status@ == "completed"@,
        d.laps matches Some(v) && v@ == sw@.laps.map_values(|l: Lap| session_lap(l)),
        d.cycles is None,
{
    let laps = sw.laps();
    let mut out: Vec<SessionLap> = Vec::new();
    let mut i: usize = 0;
    while i < laps.len()
        invariant
            laps@ == sw@.laps,
            i <= laps@.len(),
            out@ == laps@.take(i as int).map_values(|l: Lap| session_lap(l)),
        decreases laps@.len() - i,
    {
        let l = laps[i];
        out.push(SessionLap { lap: l.lap, split: l.split, total: l.total });
        i = i + 1;
        assert(out@ =~= laps@.take(i as int).map_values(|l: Lap| session_lap(l)));
    }
    assert(laps@.take(laps@.len() as int) =~= laps@);
    SessionData {
        session_type: String::from_str("stopwatch"),
        started: utc_timestamp(),
        ended: utc_timestamp(),
        duration_ms: run.final_elapsed,
        status: String::from_str("completed"),
        laps: Some(out),
        cycles: None,
    }
}

// ------------------------------------------------------------------
// The countdown loop
// ------------------------------------------------------------------

/// Where a countdown session stands between turns of its loop; the duration
/// recorded is the countdown's length unless it is stopped early.
#[derive(Debug, Clone, Copy, PartialEq, Eq, Structural)]
pub struct CountdownRun {
    pub paused: bool,
    pub interrupted: bool,
    pub final_duration: u64,
}

/// How a turn of a countdown loop ends: the session stopped by a key, the
/// time ran out, the countdown found stopped, or the time left to show with
/// the whole percent elapsed and the filled cells of the bar.
#[derive(Debug, Clone, Copy, PartialEq, Eq, Structural)]
pub enum CountdownTurn {
    Interrupted,
    TimeUp,
    Halted,
    Show { remaining: u64, percent: u64, filled: u64 },
}

/// Starts the countdown of a new session.
pub fn begin_countdown(cd: &mut Countdown) -> (r: Result<CountdownRun, TimerError>)
    ensures
        r is Err <==> !crate::timer::can_start(old(cd)@.state),
        r is Ok ==> final(cd)@ == cd_started(old(cd)@) && r == Ok::<CountdownRun, TimerError>(
            CountdownRun { paused: false, interrupted: false, final_duration: old(cd)@.duration },
        ),
        r is Err ==> final(cd)@ == old(cd)@,
{
    match cd.start() {
        Ok(()) => Ok(CountdownRun { paused: false, interrupted: false, final_duration: cd.duration() }),
        Err(e) => Err(e),
    }
}

/// The elapsed percent and bar cells of a countdown with `elapsed` of
/// `duration` gone.
pub open spec fn countdown_show(remaining: u64, elapsed: u64, duration: u64) -> CountdownTurn {
    CountdownTurn::Show {
        remaining: remaining,
        percent: progress_parts(elapsed, duration, 100) as u64,
        filled: progress_parts(elapsed, duration, BAR_WIDTH) as u64,
    }
}

/// A countdown and its session after the key of a turn, the clock reading
/// `ms` since the last start: `q` stops the countdown and records the time it
/// ran; space resumes when the session is paused and pauses a running
/// countdown.
pub open spec fn countdown_key_step(v: CountdownView, run: CountdownRun, action: KeyAction, ms: u64) -> (
    CountdownView,
    CountdownRun,
) {
    match action {
        KeyAction::Quit => (
            cd_stopped(v, ms),
            CountdownRun { paused: run.paused, interrupted: true, final_duration: cd_elapsed(v, ms) },
        ),
        KeyAction::PauseResume => if run.paused {
            (
                if v.state == TimerState::Paused {
                    cd_resumed(v)
                } else {
                    v
                },
                CountdownRun { paused: false, interrupted: run.interrupted, final_duration: run.final_duration },
            )
        } else if v.state == TimerState::Running {
            (
                cd_paused(v, ms),
                CountdownRun { paused: true, interrupted: run.interrupted, final_duration: run.final_duration },
            )
        } else {
            (v, run)
        },
        _ => (v, run),
    }
}

/// How a turn not stopped by a key ends, the clock reading `ms` since the
/// last start: the time is up when none is left; otherwise a stopped
/// countdown halts the loop, and a live one shows the time left.
pub open spec fn countdown_outcome(v: CountdownView, ms: u64) -> CountdownTurn {
    if cd_remaining(v, ms) == 0 {
        CountdownTurn::TimeUp
    } else if v.state == TimerState::Stopped {
        CountdownTurn::Halted
    } else {
        countdown_show(cd_remaining(v, ms), cd_elapsed(v, ms), v.duration)
    }
}

/// A turn of the countdown loop, the clock reading `ms` since the last start
/// when the turn begins: the countdown and the session after the key, and
/// how the turn ends.
pub open spec fn countdown_step(v: CountdownView, run: CountdownRun, action: KeyAction, ms: u64) -> (
    CountdownView,
    CountdownRun,
    CountdownTurn,
) {
    let after = countdown_key_step(v, run, action, ms);
    (
        after.0,
        after.1,
        if action == KeyAction::Quit {
            CountdownTurn::Interrupted
        } else {
            countdown_outcome(after.0, ms)
        },
    )
}

/// One turn of the countdown loop with the key read in it, the clock reading
/// `ms` since the last start when the turn begins.
pub fn countdown_turn_with(cd: &mut Countdown, run: &mut CountdownRun, key: Option<KeyPress>, ms: u64) -> (t:
    CountdownTurn)
    ensures
        (final(cd)@, *final(run), t) == countdown_step(old(cd)@, *old(run), key_action(key), ms),
{
    let action = classify_key(&key);
    match action {
        KeyAction::Quit => {
            run.final_duration = cd.stop_with(ms);
            run.interrupted = true;
            return CountdownTurn::Interrupted;
        },
        KeyAction::PauseResume => {
            if run.paused {
                let _ = cd.resume();
                run.paused = false;
            } else if cd.state() == TimerState::Running {
                let _ = cd.pause_with(ms);
                run.paused = true;
            }
        },
        _ => {},
    }
    if cd.is_finished_with(ms) {
        return CountdownTurn::TimeUp;
    }
    if cd.state() == TimerState::Stopped {
        return CountdownTurn::Halted;
    }
    let remaining = cd.remaining_with(ms);
    let elapsed = cd.elapsed_with(ms);
    let duration = cd.duration();
    let percent = progress(elapsed, duration, 100);
    let filled = progress(elapsed, duration, BAR_WIDTH);
    CountdownTurn::Show { remaining, percent, filled }
}

/// One turn of the countdown loop with the key read in it; the clock is read
/// once, when the turn begins (a countdown that is not running reads zero).
pub fn countdown_turn(cd: &mut Countdown, run: &mut CountdownRun, key: Option<KeyPress>) -> (t:
    CountdownTurn)
    ensures
        exists|ms: u64| (final(cd)@, *final(run), t) == countdown_step(old(cd)@, *old(run), key_action(key), ms),
        old(cd)@.state != TimerState::Running ==> (final(cd)@, *final(run), t) == countdown_step(
            old(cd)@,
            *old(run),
            key_action(key),
            0,
        ),
{
    let ms = cd.running_ms();
    countdown_turn_with(cd, run, key, ms)
}

/// The session record of a finished countdown session.
pub fn countdown_session(run: &CountdownRun) -> (d: SessionData)
    ensures
        exists|r: Option<(u64, u32)>| d.started@ == timestamp_text(r),
        exists|r: Option<(u64, u32)>| d.ended@ == timestamp_text(r),
        d.session_type@ == "countdown"@,
        d.duration_ms == run.final_duration,
        d.status@ == status_text(run.interrupted),
        d.laps is None,
        d.cycles is None,
{
    SessionData {
        session_type: String::from_str("countdown"),
        started: utc_timestamp(),
        ended: utc_timestamp(),
        duration_ms: run.final_duration,
        status: status_string(run.interrupted),
        laps: None,
        cycles: None,
    }
}

// ------------------------------------------------------------------
// The pomodoro loop
// ------------------------------------------------------------------

/// Where a pomodoro session stands between its phases: the milliseconds
/// spent so far, and whether it was stopped early.
#[derive(Debug, Clone, Copy, PartialEq, Eq, Structural)]
pub struct PomodoroRun {
    pub total_ms: u64,
    pub interrupted: bool,
}

impl PomodoroRun {
    /// A session that has spent no time yet.
    pub fn new() -> (r: PomodoroRun)
        ensures
            r == (PomodoroRun { total_ms: 0, interrupted: false }),
    {
        PomodoroRun { total_ms: 0, interrupted: false }
    }
}

/// What a phase starts with: its kind, its length, and, for work, the number
/// of the work cycle it is.
#[derive(Debug, Clone, Copy, PartialEq, Eq, Structural)]
pub struct PhaseStart {
    pub phase: PomodoroPhase,
    pub duration: u64,
    pub work_cycle: Option<u32>,
}

/// The number of the work cycle that a phase belongs to, for work phases.
pub open spec fn work_cycle_of(pt: &PomodoroTimer) -> Option<u32> {
    if pt.phase == PomodoroPhase::Work {
        Some((pt.completed_cycles + 1) as u32)
    } else {
        None
    }
}

fn work_cycle(pt: &PomodoroTimer) -> (r: Option<u32>)
    requires
        pt.phase == PomodoroPhase::Work ==> pt.completed_cycles < u32::MAX,
    ensures
        r == work_cycle_of(pt),
{
    if pt.phase == PomodoroPhase::Work {
        Some(pt.completed_cycles() + 1)
    } else {
        None
    }
}

/// Starts a countdown for the current phase of `pt`.
pub fn begin_pomodoro_phase(pt: &PomodoroTimer) -> (r: (Countdown, PhaseStart))
    requires
        pt.phase == PomodoroPhase::Work ==> pt.completed_cycles < u32::MAX,
    ensures
        r.0@ == (CountdownView { duration: pt.duration_of(pt.phase), state: TimerState::Running, elapsed: 0 }),
        r.1 == (PhaseStart { phase: pt.phase, duration: pt.duration_of(pt.phase), work_cycle: work_cycle_of(pt) }),
{
    let dur = pt.get_current_duration();
    let mut cd = Countdown::new(dur);
    let _ = cd.start();
    let start = PhaseStart { phase: pt.phase, duration: dur, work_cycle: work_cycle(pt) };
    (cd, start)
}

/// How a turn of the pomodoro loop ends: the session stopped by a key, the
/// phase over (which phase, and the work cycle it completed), the countdown
/// found stopped, or the time left to show with the whole percent elapsed.
#[derive(Debug, Clone, Copy, PartialEq, Eq, Structural)]
pub enum PomodoroTurn {
    Interrupted,
    PhaseDone { finished: PomodoroPhase, work_cycle: Option<u32> },
    Halted,
    Show { remaining: u64, percent: u64 },
}

/// The countdown of a pomodoro phase after the key of a turn, the clock
/// reading `ms` since the last start: `q` stops it; space resumes it when
/// paused and pauses it when running.
pub open spec fn phase_key_step(v: CountdownView, action: KeyAction, ms: u64) -> CountdownView {
    match action {
        KeyAction::Quit => cd_stopped(v, ms),
        KeyAction::PauseResume => if v.state == TimerState::Paused {
            cd_resumed(v)
        } else if v.state == TimerState::Running {
            cd_paused(v, ms)
        } else {
            v
        },
        _ => v,
    }
}

/// How a turn of a pomodoro phase of `dur` milliseconds ends, its countdown
/// being `v` after the key and the clock reading `ms` since the last start:
/// `q` interrupts; with no time left the phase of `pt` is done; otherwise a
/// stopped countdown halts the loop, and a live one shows the time left.
pub open spec fn pomodoro_outcome(pt: PomodoroTimer, v: CountdownView, action: KeyAction, ms: u64, dur: u64) -> PomodoroTurn {
    if action == KeyAction::Quit {
        PomodoroTurn::Interrupted
    } else if cd_remaining(v, ms) == 0 {
        PomodoroTurn::PhaseDone { finished: pt.phase, work_cycle: work_cycle_of(&pt) }
    } else if v.state == TimerState::Stopped {
        PomodoroTurn::Halted
    } else {
        PomodoroTurn::Show {
            remaining: cd_remaining(v, ms),
            percent: progress_parts(cd_elapsed(v, ms), dur, 100) as u64,
        }
    }
}

/// The session after a pomodoro turn that ended in `t`, the phase's countdown
/// being `v`: an interrupted phase adds the time it ran and marks the session
/// interrupted; a finished phase adds its whole length `dur`.
pub open spec fn pomodoro_run_after(run: PomodoroRun, t: PomodoroTurn, v: CountdownView, dur: u64) -> PomodoroRun {
    match t {
        PomodoroTurn::Interrupted => PomodoroRun {
            total_ms: crate::timer::add_ms(run.total_ms, v.elapsed),
            interrupted: true,
        },
        PomodoroTurn::PhaseDone { .. } => PomodoroRun {
            total_ms: crate::timer::add_ms(run.total_ms, dur),
            interrupted: run.interrupted,
        },
        _ => run,
    }
}

/// A turn of a pomodoro phase of `dur` milliseconds took the timer from `pt`
/// to `pt2`, its countdown from `v` to `v2` and the session from `run` to
/// `run2`, ending in `t`, the clock reading `ms` since the last start when
/// the turn began: an interrupted phase records the time it ran; a finished
/// one records its whole length and moves on to the next phase.
pub open spec fn pomodoro_turn_taken(
    pt: PomodoroTimer,
    pt2: PomodoroTimer,
    v: CountdownView,
    v2: CountdownView,
    run: PomodoroRun,
    run2: PomodoroRun,
    action: KeyAction,
    ms: u64,
    dur: u64,
    t: PomodoroTurn,
) -> bool {
    &&& v2 == phase_key_step(v, action, ms)
    &&& t == pomodoro_outcome(pt, v2, action, ms, dur)
    &&& run2 == pomodoro_run_after(run, t, v2, dur)
    &&& t == PomodoroTurn::Interrupted ==> pt.recorded_to(&pt2, v2.elapsed)
    &&& t is PhaseDone ==> exists|mid: PomodoroTimer| pt.recorded_to(&mid, dur) && mid.advanced_to(&pt2)
    &&& t != PomodoroTurn::Interrupted && !(t is PhaseDone) ==> pt2 == pt
}

/// One turn of a pomodoro phase of `dur` milliseconds with the key read in
/// it, the clock reading `ms` since the last start when the turn begins.
pub fn pomodoro_turn_with(
    pt: &mut PomodoroTimer,
    cd: &mut Countdown,
    run: &mut PomodoroRun,
    key: Option<KeyPress>,
    dur: u64,
    ms: u64,
) -> (t: PomodoroTurn)
    requires
        old(pt).phase == PomodoroPhase::Work ==> old(pt).current_cycle < u32::MAX
            && old(pt).completed_cycles < u32::MAX,
    ensures
        pomodoro_turn_taken(
            *old(pt),
            *final(pt),
            old(cd)@,
            final(cd)@,
            *old(run),
            *final(run),
            key_action(key),
            ms,
            dur,
            t,
        ),
{
    let action = classify_key(&key);
    match action {
        KeyAction::Quit => {
            let e = cd.stop_with(ms);
            pt.record_cycle(e);
            run.total_ms = run.total_ms.saturating_add(e);
            run.interrupted = true;
            return PomodoroTurn::Interrupted;
        },
        KeyAction::PauseResume => {
            if cd.state() == TimerState::Paused {
                let _ = cd.resume();
            } else if cd.state() == TimerState::Running {
                let _ = cd.pause_with(ms);
            }
        },
        _ => {},
    }
    if cd.is_finished_with(ms) {
        let finished = pt.phase;
        let cycle = work_cycle(pt);
        let ghost before = *pt;
        pt.record_cycle(dur);
        let ghost mid = *pt;
        run.total_ms = run.total_ms.saturating_add(dur);
        pt.advance_phase();
        proof {
            assert(before.recorded_to(&mid, dur) && mid.advanced_to(pt));
        }
        return PomodoroTurn::PhaseDone { finished, work_cycle: cycle };
    }
    if cd.state() == TimerState::Stopped {
        return PomodoroTurn::Halted;
    }
    let remaining = cd.remaining_with(ms);
    let elapsed = cd.elapsed_with(ms);
    let percent = progress(elapsed, dur, 100);
    PomodoroTurn::Show { remaining, percent }
}

/// One turn of a pomodoro phase of `dur` milliseconds with the key read in
/// it; the clock is read once, when the turn begins (a countdown that is not
/// running reads zero).
pub fn pomodoro_turn(
    pt: &mut PomodoroTimer,
    cd: &mut Countdown,
    run: &mut PomodoroRun,
    key: Option<KeyPress>,
    dur: u64,
) -> (t: PomodoroTurn)
    requires
        old(pt).phase == PomodoroPhase::Work ==> old(pt).current_cycle < u32::MAX
            && old(pt).completed_cycles < u32::MAX,
    ensures
        exists|ms: u64|
            pomodoro_turn_taken(
                *old(pt),
                *final(pt),
                old(cd)@,
                final(cd)@,
                *old(run),
                *final(run),
                key_action(key),
                ms,
                dur,
                t,
            ),
        old(cd)@.state != TimerState::Running ==> pomodoro_turn_taken(
            *old(pt),
            *final(pt),
            old(cd)@,
            final(cd)@,
            *old(run),
            *final(run),
            key_action(key),
            0,
            dur,
            t,
        ),
{
    let ms = cd.running_ms();
    pomodoro_turn_with(pt, cd, run, key, dur, ms)
}

// ------------------------------------------------------------------
// Laws of the text and the loops
// ------------------------------------------------------------------

/// `HH:MM:SS.mmm` text of the given fields.
pub open spec fn clock_layout(hours: nat, minutes: nat, seconds: nat, millis: nat) -> Seq<char> {
    padded(hours, 2) + seq![':'] + padded(minutes, 2) + seq![':'] + padded(seconds, 2) + seq!['.']
        + padded(millis, 3)
}

/// The text of a duration reads back as the duration: it shows hours,
/// minutes below 60, seconds below 60 and milliseconds below 1000 that add
/// up to exactly `ms` milliseconds.
pub proof fn law_duration_text_reads_back(ms: u64)
    ensures
        exists|h: nat, m: nat, s: nat, f: nat|
            #![trigger clock_layout(h, m, s, f)]
            m < 60 && s < 60 && f < 1000 && h * 3_600_000 + m * 60_000 + s * 1000 + f == ms
                && duration_text(ms) == clock_layout(h, m, s, f),
{
    let secs = ms / 1000;
    let h = (secs / 3600) as nat;
    let m = ((secs % 3600) / 60) as nat;
    let s = (secs % 60) as nat;
    let f = (ms % 1000) as nat;
    let x = ms as int;
    let q = secs as int;
    assert(x == q * 1000 + f) by (nonlinear_arith)
        requires
            q == x / 1000,
            f == x % 1000,
            x >= 0,
    ;
    let r = secs % 3600;
    assert(q == h * 3600 + r) by (nonlinear_arith)
        requires
            h == q / 3600,
            r == q % 3600,
            q >= 0,
    ;
    assert(r == m * 60 + s) by (nonlinear_arith)
        requires
            m == r / 60,
            s == q % 60,
            r == q % 3600,
            q >= 0,
    ;
    assert(h * 3_600_000 + m * 60_000 + s * 1000 + f == ms) by (nonlinear_arith)
        requires
            x == q * 1000 + f,
            q == h * 3600 + r,
            r == m * 60 + s,
            x == ms,
    ;
    assert(duration_text(ms) == clock_layout(h, m, s, f));
}

/// From a running countdown, a space pauses it with the time read so far,
/// and a second space resumes it from exactly that time; the session's
/// `paused` follows the countdown both times.
pub proof fn law_countdown_space_twice(v: CountdownView, run: CountdownRun, a: u64, b: u64)
    requires
        v.state == TimerState::Running,
        !run.paused,
    ensures
        ({
            let first = countdown_step(v, run, KeyAction::PauseResume, a);
            let second = countdown_step(first.0, first.1, KeyAction::PauseResume, b);
            &&& first.0.state == TimerState::Paused && first.1.paused
            &&& first.0.elapsed == crate::timer::add_ms(v.elapsed, a)
            &&& second.0.state == TimerState::Running && !second.1.paused
            &&& second.0.elapsed == first.0.elapsed
            &&& second.0.duration == v.duration
            &&& second.1.interrupted == run.interrupted
            &&& second.1.final_duration == run.final_duration
        }),
{
}

/// While a countdown session runs, its `paused` is true exactly when the
/// countdown is paused, and every key but `q` keeps it so: a space on a
/// paused session resumes the countdown from the time it had, and a space on
/// a running one pauses it.
pub proof fn law_countdown_pause_follows_state(v: CountdownView, run: CountdownRun, action: KeyAction, ms: u64)
    requires
        action != KeyAction::Quit,
        v.state == TimerState::Running || v.state == TimerState::Paused,
        run.paused == (v.state == TimerState::Paused),
    ensures
        ({
            let next = countdown_step(v, run, action, ms);
            &&& next.0.state == TimerState::Running || next.0.state == TimerState::Paused
            &&& next.1.paused == (next.0.state == TimerState::Paused)
            &&& next.0.duration == v.duration
            &&& action == KeyAction::PauseResume && v.state == TimerState::Paused ==> next.0.state
                == TimerState::Running && next.0.elapsed == v.elapsed
            &&& action == KeyAction::PauseResume && v.state == TimerState::Running ==> next.0.state
                == TimerState::Paused && next.0.elapsed == crate::timer::add_ms(v.elapsed, ms)
            &&& action != KeyAction::PauseResume ==> next.0 == v && next.1 == run
        }),
{
}

/// While a stopwatch session runs, its `paused` is true exactly when the
/// stopwatch is paused, and every key but `q` keeps it so: a space on a
/// paused session resumes from the time it had, a space on a running one
/// pauses it, and laps change neither the state nor the elapsed time.
pub proof fn law_stopwatch_pause_follows_state(v: StopwatchView, run: StopwatchRun, action: KeyAction, ms: u64)
    requires
        action != KeyAction::Quit,
        v.state == TimerState::Running || v.state == TimerState::Paused,
        run.paused == (v.state == TimerState::Paused),
        !run.done,
    ensures
        ({
            let next = stopwatch_step(v, run, action, ms);
            &&& next.0.state == TimerState::Running || next.0.state == TimerState::Paused
            &&& next.1.paused == (next.0.state == TimerState::Paused)
            &&& !next.1.done
            &&& action == KeyAction::PauseResume && v.state == TimerState::Paused ==> next.0.state
                == TimerState::Running && next.0.elapsed == v.elapsed && next.0.laps == v.laps
            &&& action == KeyAction::PauseResume && v.state == TimerState::Running ==> next.0.state
                == TimerState::Paused && next.0.elapsed == crate::timer::add_ms(v.elapsed, ms)
                && next.0.laps == v.laps
            &&& next.0.elapsed == v.elapsed || action == KeyAction::PauseResume
            &&& next.2.elapsed == Some(sw_elapsed(next.0, ms))
        }),
{
}

/// A space on a pomodoro phase pauses a running countdown with the time read
/// so far, and resumes a paused one from exactly the time it had; two spaces
/// from running leave it running with the time it had at the pause.
pub proof fn law_phase_space_toggles(v: CountdownView, a: u64, b: u64)
    ensures
        v.state == TimerState::Running ==> phase_key_step(v, KeyAction::PauseResume, a).state
            == TimerState::Paused && phase_key_step(v, KeyAction::PauseResume, a).elapsed
            == crate::timer::add_ms(v.elapsed, a),
        v.state == TimerState::Paused ==> phase_key_step(v, KeyAction::PauseResume, a).state
            == TimerState::Running && phase_key_step(v, KeyAction::PauseResume, a).elapsed
            == v.elapsed,
        v.state == TimerState::Running ==> phase_key_step(
            phase_key_step(v, KeyAction::PauseResume, a),
            KeyAction::PauseResume,
            b,
        ).state == TimerState::Running && phase_key_step(
            phase_key_step(v, KeyAction::PauseResume, a),
            KeyAction::PauseResume,
            b,
        ).elapsed == crate::timer::add_ms(v.elapsed, a),
        phase_key_step(v, KeyAction::PauseResume, a).duration == v.duration,
{
}

/// The entries that a stopwatch session saves for `laps`.
pub open spec fn saved_laps(laps: Seq<Lap>) -> Seq<SessionLap> {
    laps.map_values(|l: Lap| session_lap(l))
}

/// The laps saved in a stopwatch session keep the stopwatch's lap records
/// field for field, so consistent laps are saved consistent: numbered from 1,
/// each split its total less the previous saved total.
pub proof fn law_saved_laps_match(laps: Seq<Lap>)
    ensures
        saved_laps(laps).len() == laps.len(),
        forall|i: int|
            0 <= i < laps.len() ==> (#[trigger] saved_laps(laps)[i]).lap == laps[i].lap
                && saved_laps(laps)[i].split == laps[i].split && saved_laps(laps)[i].total
                == laps[i].total,
        crate::timer::laps_wf(laps) ==> forall|i: int|
            0 <= i < laps.len() ==> (#[trigger] saved_laps(laps)[i]).lap == i + 1
                && saved_laps(laps)[i].split == saved_laps(laps)[i].total - (if i == 0 {
                0
            } else {
                saved_laps(laps)[i - 1].total as int
            }),
{
    let saved = saved_laps(laps);
    assert forall|i: int| 0 <= i < laps.len() implies (#[trigger] saved[i]) == session_lap(laps[i]) by {}
    if crate::timer::laps_wf(laps) {
        assert forall|i: int| 0 <= i < laps.len() implies (#[trigger] saved[i]).lap == i + 1
            && saved[i].split == saved[i].total - (if i == 0 {
            0
        } else {
            saved[i - 1].total as int
        }) by {
            assert(laps[i].lap == i + 1);
            if i > 0 {
                assert(saved[i - 1] == session_lap(laps[i - 1]));
            }
        }
    }
}

/// The milliseconds of the first `n` recorded segments.
pub open spec fn cycles_total(cycles: Seq<crate::pomodoro::PomodoroCycle>, n: int) -> int
    decreases n,
{
    if n <= 0 {
        0
    } else {
        cycles_total(cycles, n - 1) + cycles[n - 1].duration
    }
}

/// `x`, but no more than `u64::MAX`.
pub open spec fn capped_ms(x: int) -> int {
    if x > u64::MAX {
        u64::MAX as int
    } else {
        x
    }
}

/// A session's running total is the time of the segments it has recorded
/// (capped at `u64::MAX`); recording a segment and adding its time to the
/// total keeps it so, and moving on to the next phase changes neither.
pub proof fn law_total_is_recorded_time(
    before: PomodoroTimer,
    after: PomodoroTimer,
    total: u64,
    duration: u64,
)
    requires
        total == capped_ms(cycles_total(before.cycles@, before.cycles@.len() as int)),
        before.recorded_to(&after, duration) || before.advanced_to(&after),
    ensures
        before.recorded_to(&after, duration) ==> crate::timer::add_ms(total, duration) == capped_ms(
            cycles_total(after.cycles@, after.cycles@.len() as int),
        ),
        before.advanced_to(&after) ==> total == capped_ms(
            cycles_total(after.cycles@, after.cycles@.len() as int),
        ),
{
    let n = before.cycles@.len() as int;
    if before.recorded_to(&after, duration) {
        assert forall|k: int| 0 <= k <= n implies cycles_total(after.cycles@, k) == cycles_total(
            before.cycles@,
            k,
        ) by {
            lemma_cycles_total_prefix(before.cycles@, after.cycles@, k);
        }
        assert(cycles_total(after.cycles@, n + 1) == cycles_total(after.cycles@, n) + duration);
        lemma_cycles_total_nonneg(before.cycles@, n);
    }
}

proof fn lemma_cycles_total_prefix(
    a: Seq<crate::pomodoro::PomodoroCycle>,
    b: Seq<crate::pomodoro::PomodoroCycle>,
    k: int,
)
    requires
        0 <= k <= a.len(),
        k <= b.len(),
        forall|i: int| 0 <= i < a.len() ==> #[trigger] b[i] == a[i],
    ensures
        cycles_total(b, k) == cycles_total(a, k),
    decreases k,
{
    if k > 0 {
        lemma_cycles_total_prefix(a, b, k - 1);
        assert(b[k - 1] == a[k - 1]);
    }
}

proof fn lemma_cycles_total_nonneg(a: Seq<crate::pomodoro::PomodoroCycle>, k: int)
    ensures
        cycles_total(a, k) >= 0,
    decreases k,
{
    if k > 0 {
        lemma_cycles_total_nonneg(a, k - 1);
    }
}

/// The log entry `c` records the segment `p`.
pub open spec fn same_cycle(c: SessionCycle, p: crate::pomodoro::PomodoroCycle) -> bool {
    c.cycle == p.cycle && c.cycle_type@ == p.cycle_type@ && c.duration == p.duration
}

/// The session record of a finished pomodoro session.
pub fn pomodoro_session(pt: &PomodoroTimer, run: &PomodoroRun) -> (d: SessionData)
    ensures
        exists|r: Option<(u64, u32)>| d.started@ == timestamp_text(r),
        exists|r: Option<(u64, u32)>| d.ended@ == timestamp_text(r),
        d.session_type@ == "pomodoro"@,
        d.duration_ms == run.total_ms,
        d.status@ == status_text(run.interrupted),
        d.laps is None,
        d.cycles matches Some(v) && v@.len() == pt.cycles@.len() && forall|i: int|
            0 <= i < v@.len() ==> same_cycle(#[trigger] v@[i], pt.cycles@[i]),
{
    let mut out: Vec<SessionCycle> = Vec::new();
    let mut i: usize = 0;
    while i < pt.cycles.len()
        invariant
            i <= pt.cycles@.len(),
            out@.len() == i,
            forall|j: int| 0 <= j < i ==> same_cycle(#[trigger] out@[j], pt.cycles@[j]),
        decreases pt.cycles@.len() - i,
    {
        let c = &pt.cycles[i];
        out.push(SessionCycle { cycle: c.cycle, cycle_type: c.cycle_type.clone(), duration: c.duration });
        i = i + 1;
    }
    SessionData {
        session_type: String::from_str("pomodoro"),
        started: utc_timestamp(),
        ended: utc_timestamp(),
        duration_ms: run.total_ms,
        status: status_string(run.interrupted),
        laps: None,
        cycles: Some(out),
    }
}

// ------------------------------------------------------------------
// History
// ------------------------------------------------------------------

/// How a session's status is shown.
#[derive(Debug, Clone, Copy, PartialEq, Eq, Structural)]
pub enum StatusKind {
    Completed,
    Interrupted,
    Other,
}

pub open spec fn status_kind(status: Seq<char>) -> StatusKind {
    if status == "completed"@ {
        StatusKind::Completed
    } else if status == "interrupted"@ {
        StatusKind::Interrupted
    } else {
        StatusKind::Other
    }
}

/// A row of the session history table.
#[derive(Debug)]
pub struct HistoryRow {
    pub number: usize,
    pub session_type: String,
    pub duration: String,
    pub started: String,
    pub status: String,
    pub kind: StatusKind,
}

/// The row showing `s` as the `number`-th session.
pub open spec fn history_row_of(row: HistoryRow, number: int, s: SessionData) -> bool {
    &&& row.number == number
    &&& row.session_type@ == s.session_type@
    &&& row.duration@ == duration_text(s.duration_ms)
    &&& row.started@ == s.started@
    &&& row.status@ == s.status@
    &&& row.kind == status_kind(s.status@)
}

/// The rows of the history table: the first `limit` sessions, numbered from 1.
pub fn history_rows(sessions: &[SessionData], limit: usize) -> (rows: Vec<HistoryRow>)
    ensures
        rows@.len() == if limit < sessions@.len() {
            limit as int
        } else {
            sessions@.len() as int
        },
        forall|i: int| 0 <= i < rows@.len() ==> history_row_of(#[trigger] rows@[i], i + 1, sessions@[i]),
{
    let completed = String::from_str("completed");
    let interrupted = String::from_str("interrupted");
    let mut rows: Vec<HistoryRow> = Vec::new();
    let mut i: usize = 0;
    while i < sessions.len() && i < limit
        invariant
            i <= sessions@.len(),
            i <= limit,
            completed@ == "completed"@,
            interrupted@ == "interrupted"@,
            rows@.len() == i,
            forall|j: int| 0 <= j < i ==> history_row_of(#[trigger] rows@[j], j + 1, sessions@[j]),
        decreases sessions@.len() - i,
    {
        let s = &sessions[i];
        let kind = if s.status == completed {
            StatusKind::Completed
        } else if s.status == interrupted {
            StatusKind::Interrupted
        } else {
            StatusKind::Other
        };
        rows.push(
            HistoryRow {
                number: i + 1,
                session_type: s.session_type.clone(),
                duration: format_duration(s.duration_ms),
                started: s.started.clone(),
                status: s.status.clone(),
                kind,
            },
        );
        i = i + 1;
    }
    rows
}

} // verus!
