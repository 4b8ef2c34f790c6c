//! Stopwatch and countdown state machines.
//!
//! Times are whole milliseconds. A running timer keeps the instant at which it
//! last started; the time since then is read from the monotonic clock
//! whenever the timer is asked for its elapsed time. Each operation that reads
//! the clock has a twin ending in `_with` that takes the reading as an
//! argument, and whose contract says exactly what comes out of it.
use crate::clock::{instant_now, millis_since};
use std::time::Instant;
use vstd::prelude::*;

verus! {

/// Possible states of a timer.
#[derive(Debug, Clone, Copy, PartialEq, Eq, Structural)]
pub enum TimerState {
    Idle,
    Running,
    Paused,
    Stopped,
    Finished,
}

/// Why a timer refused an operation; each variant carries the state it was in.
#[derive(Debug, Clone, Copy, PartialEq, Eq, Structural)]
pub enum TimerError {
    /// `start` is only accepted from `Idle` or `Stopped`.
    CannotStart(TimerState),
    /// `pause` is only accepted while `Running`.
    CannotPause(TimerState),
    /// `resume` is only accepted while `Paused`.
    CannotResume(TimerState),
    /// `lap` is only accepted while `Running`.
    LapWhenNotRunning(TimerState),
}

/// A recorded lap: its number (from 1), its split (its total less the
/// previous lap's total) and its running total, in milliseconds.
#[derive(Debug, Clone, Copy, PartialEq, Eq, Structural)]
pub struct Lap {
    pub lap: u32,
    pub split: i128,
    pub total: u64,
}

/// `a + b`, capped at `u64::MAX`.
pub open spec fn add_ms(a: u64, b: u64) -> u64 {
    if a + b > u64::MAX {
        u64::MAX
    } else {
        (a + b) as u64
    }
}

/// `a - b`, floored at zero.
pub open spec fn sub_ms(a: u64, b: u64) -> u64 {
    if a >= b {
        (a - b) as u64
    } else {
        0
    }
}

/// A timer may be (re)started from these states only.
pub open spec fn can_start(s: TimerState) -> bool {
    s == TimerState::Idle || s == TimerState::Stopped
}

// ------------------------------------------------------------------
// The clock-keeping part that the stopwatch and the countdown share.
// ------------------------------------------------------------------

/// What a run clock holds: its state and the milliseconds accumulated up to
/// its last pause or stop.
pub struct RunClockView {
    pub state: TimerState,
    pub elapsed: u64,
}

/// Elapsed time of a clock, given the milliseconds since its last start.
pub open spec fn clock_elapsed(c: RunClockView, running_ms: u64) -> u64 {
    if c.state == TimerState::Running {
        add_ms(c.elapsed, running_ms)
    } else {
        c.elapsed
    }
}

/// The state and accumulated time of a timer, with the instant of its last start.
struct RunClock {
    state: TimerState,
    start_time: Option<Instant>,
    elapsed: u64,
}

impl RunClock {
    #[verifier::type_invariant]
    spec fn inv(self) -> bool {
        self.state == TimerState::Running ==> self.start_time is Some
    }

    spec fn view(&self) -> RunClockView {
        RunClockView { state: self.state, elapsed: self.elapsed }
    }

    fn new() -> (c: RunClock)
        ensures
            c.view() == (RunClockView { state: TimerState::Idle, elapsed: 0 }),
    {
        RunClock { state: TimerState::Idle, start_time: None, elapsed: 0 }
    }

    fn state(&self) -> (s: TimerState)
        ensures
            s == self.view().state,
    {
        self.state
    }

    /// Milliseconds since the last start, read from the clock while running
    /// (zero otherwise, when nothing reads them).
    fn running_ms(&self) -> (ms: u64)
        ensures
            self.view().state != TimerState::Running ==> ms == 0,
    {
        if self.state == TimerState::Running {
            match &self.start_time {
                Some(st) => millis_since(st),
                None => 0,
            }
        } else {
            0
        }
    }

    fn elapsed_with(&self, running_ms: u64) -> (r: u64)
        ensures
            r == clock_elapsed(self.view(), running_ms),
    {
        if self.state == TimerState::Running {
            self.elapsed.saturating_add(running_ms)
        } else {
            self.elapsed
        }
    }

    fn start(&mut self) -> (r: Result<(), TimerError>)
        ensures
            r is Err <==> !can_start(old(self).view().state),
            r is Err ==> r == Err::<(), TimerError>(TimerError::CannotStart(old(self).view().state)),
            r is Ok ==> final(self).view() == (RunClockView { state: TimerState::Running, elapsed: 0 }),
            r is Err ==> final(self).view() == old(self).view(),
    {
        if self.state != TimerState::Idle && self.state != TimerState::Stopped {
            return Err(TimerError::CannotStart(self.state));
        }
        self.start_time = Some(instant_now());
        self.elapsed = 0;
        self.state = TimerState::Running;
        Ok(())
    }

    fn pause_with(&mut self, running_ms: u64) -> (r: Result<(), TimerError>)
        ensures
            r is Err <==> old(self).view().state != TimerState::Running,
            r is Err ==> r == Err::<(), TimerError>(TimerError::CannotPause(old(self).view().state)),
            r is Ok ==> final(self).view() == (RunClockView {
                state: TimerState::Paused,
                elapsed: add_ms(old(self).view().elapsed, running_ms),
            }),
            r is Err ==> final(self).view() == old(self).view(),
    {
        proof {
            use_type_invariant(&*self);
        }
        if self.state != TimerState::Running {
            return Err(TimerError::CannotPause(self.state));
        }
        if self.start_time.is_some() {
            self.elapsed = self.elapsed.saturating_add(running_ms);
        }
        self.state = TimerState::Paused;
        Ok(())
    }

    fn resume(&mut self) -> (r: Result<(), TimerError>)
        ensures
            r is Err <==> old(self).view().state != TimerState::Paused,
            r is Err ==> r == Err::<(), TimerError>(TimerError::CannotResume(old(self).view().state)),
            r is Ok ==> final(self).view() == (RunClockView {
                state: TimerState::Running,
                elapsed: old(self).view().elapsed,
            }),
            r is Err ==> final(self).view() == old(self).view(),
    {
        if self.state != TimerState::Paused {
            return Err(TimerError::CannotResume(self.state));
        }
        self.start_time = Some(instant_now());
        self.state = TimerState::Running;
        Ok(())
    }

    fn stop_with(&mut self, running_ms: u64) -> (r: u64)
        ensures
            final(self).view() == (RunClockView {
                state: TimerState::Stopped,
                elapsed: clock_elapsed(old(self).view(), running_ms),
            }),
            r == final(self).view().elapsed,
    {
        proof {
            use_type_invariant(&*self);
        }
        if self.state == TimerState::Running {
            if self.start_time.is_some() {
                self.elapsed = self.elapsed.saturating_add(running_ms);
            }
        }
        self.state = TimerState::Stopped;
        self.elapsed
    }
}

// ------------------------------------------------------------------
// Stopwatch
// ------------------------------------------------------------------

/// Total of the lap before lap `i` (zero before the first).
pub open spec fn prev_total(laps: Seq<Lap>, i: int) -> int {
    if i <= 0 {
        0
    } else {
        laps[i - 1].total as int
    }
}

/// Laps are numbered 1, 2, ... in order, and each split is the difference
/// between its total and the previous lap's total.
pub open spec fn laps_wf(laps: Seq<Lap>) -> bool {
    forall|i: int|
        0 <= i < laps.len() ==> #[trigger] laps[i].lap == i + 1 && laps[i].split == laps[i].total
            - prev_total(laps, i)
}

/// What a stopwatch holds: its state, the milliseconds accumulated up to its
/// last pause or stop, and its laps.
pub struct StopwatchView {
    pub state: TimerState,
    pub elapsed: u64,
    pub laps: Seq<Lap>,
}

/// The elapsed time of a stopwatch, `running_ms` after its last start.
pub open spec fn sw_elapsed(v: StopwatchView, running_ms: u64) -> u64 {
    clock_elapsed(RunClockView { state: v.state, elapsed: v.elapsed }, running_ms)
}

/// A stopwatch after a successful `start`: running from zero, with no laps.
pub open spec fn sw_started(v: StopwatchView) -> StopwatchView {
    StopwatchView { state: TimerState::Running, elapsed: 0, laps: Seq::empty() }
}

/// A running stopwatch after `pause`, `running_ms` after its last start.
pub open spec fn sw_paused(v: StopwatchView, running_ms: u64) -> StopwatchView {
    StopwatchView { state: TimerState::Paused, elapsed: add_ms(v.elapsed, running_ms), laps: v.laps }
}

/// A paused stopwatch after `resume`.
pub open spec fn sw_resumed(v: StopwatchView) -> StopwatchView {
    StopwatchView { state: TimerState::Running, elapsed: v.elapsed, laps: v.laps }
}

/// A stopwatch after `stop`, `running_ms` after its last start.
pub open spec fn sw_stopped(v: StopwatchView, running_ms: u64) -> StopwatchView {
    StopwatchView { state: TimerState::Stopped, elapsed: sw_elapsed(v, running_ms), laps: v.laps }
}

/// The lap that a running stopwatch records when the clock reads
/// `running_ms` since its last start: its total is the elapsed time at that
/// reading, and its split what has passed since the previous lap's total.
pub open spec fn sw_next_lap(v: StopwatchView, running_ms: u64) -> Lap {
    let current = sw_elapsed(v, running_ms);
    Lap {
        lap: (v.laps.len() + 1) as u32,
        split: (current - prev_total(v.laps, v.laps.len() as int)) as i128,
        total: current,
    }
}

/// A running stopwatch after `lap`, the clock reading `running_ms` since its
/// last start.
pub open spec fn sw_lapped(v: StopwatchView, running_ms: u64) -> StopwatchView {
    StopwatchView { state: v.state, elapsed: v.elapsed, laps: v.laps.push(sw_next_lap(v, running_ms)) }
}

/// Appending a lap numbered next, whose split is its total less the last
/// total, keeps a lap list consistent.
proof fn lemma_push_keeps_laps_wf(laps: Seq<Lap>, lap: Lap)
    requires
        laps_wf(laps),
        lap.lap == laps.len() + 1,
        lap.split == lap.total - prev_total(laps, laps.len() as int),
    ensures
        laps_wf(laps.push(lap)),
{
    let l = laps.push(lap);
    assert forall|i: int| 0 <= i < l.len() implies #[trigger] l[i].lap == i + 1 && l[i].split
        == l[i].total - prev_total(l, i) by {
        if i < laps.len() {
            assert(l[i] == laps[i]);
            if i > 0 {
                assert(l[i - 1] == laps[i - 1]);
            }
        } else if i > 0 {
            assert(l[i - 1] == laps[i - 1]);
        }
    }
}

/// The laps recorded so far, kept numbered and consistent.
struct LapLog {
    laps: Vec<Lap>,
}

impl LapLog {
    #[verifier::type_invariant]
    spec fn inv(self) -> bool {
        laps_wf(self.laps@)
    }

    spec fn view(&self) -> Seq<Lap> {
        self.laps@
    }

    fn new() -> (log: LapLog)
        ensures
            log.view() == Seq::<Lap>::empty(),
    {
        LapLog { laps: Vec::new() }
    }

    fn as_slice(&self) -> (r: &[Lap])
        ensures
            r@ == self.view(),
            laps_wf(r@),
    {
        proof {
            use_type_invariant(self);
        }
        self.laps.as_slice()
    }

    /// Appends the lap whose running total is `total`.
    fn record(&mut self, total: u64) -> (lap: Lap)
        requires
            old(self).view().len() < u32::MAX,
        ensures
            lap == (Lap {
                lap: (old(self).view().len() + 1) as u32,
                split: (total - prev_total(old(self).view(), old(self).view().len() as int)) as i128,
                total: total,
            }),
            final(self).view() == old(self).view().push(lap),
    {
        proof {
            use_type_invariant(&*self);
        }
        let n = self.laps.len();
        let previous: u64 = if n == 0 {
            0
        } else {
            self.laps[n - 1].total
        };
        let lap = Lap { lap: n as u32 + 1, split: total as i128 - previous as i128, total: total };
        let mut laps = Vec::new();
        std::mem::swap(&mut laps, &mut self.laps);
        proof {
            lemma_push_keeps_laps_wf(laps@, lap);
        }
        laps.push(lap);
        self.laps = laps;
        lap
    }
}

/// A stopwatch with lap timing capability.
pub struct Stopwatch {
    clock: RunClock,
    laps: LapLog,
}

impl View for Stopwatch {
    type V = StopwatchView;

    closed spec fn view(&self) -> StopwatchView {
        StopwatchView { state: self.clock.view().state, elapsed: self.clock.view().elapsed, laps: self.laps.view() }
    }
}

impl Stopwatch {
    /// A new stopwatch: idle, at zero, with no laps.
    pub fn new() -> (sw: Stopwatch)
        ensures
            sw@ == (StopwatchView { state: TimerState::Idle, elapsed: 0, laps: Seq::empty() }),
    {
        Stopwatch { clock: RunClock::new(), laps: LapLog::new() }
    }

    pub fn state(&self) -> (s: TimerState)
        ensures
            s == self@.state,
    {
        self.clock.state()
    }

    /// Elapsed milliseconds, `running_ms` after the last start.
    pub fn elapsed_with(&self, running_ms: u64) -> (r: u64)
        ensures
            r == sw_elapsed(self@, running_ms),
    {
        self.clock.elapsed_with(running_ms)
    }

    /// Milliseconds since the last start, read from the monotonic clock
    /// while running; zero otherwise.
    pub fn running_ms(&self) -> (ms: u64)
        ensures
            self@.state != TimerState::Running ==> ms == 0,
    {
        self.clock.running_ms()
    }

    /// Elapsed milliseconds; while running, the clock is read.
    pub fn elapsed(&self) -> (r: u64)
        ensures
            exists|ms: u64| r == sw_elapsed(self@, ms),
            self@.state != TimerState::Running ==> r == self@.elapsed,
    {
        let ms = self.clock.running_ms();
        self.elapsed_with(ms)
    }

    /// The recorded laps, numbered from 1, each split being the difference
    /// between its total and the previous one.
    pub fn laps(&self) -> (r: &[Lap])
        ensures
            r@ == self@.laps,
            laps_wf(r@),
    {
        self.laps.as_slice()
    }

    /// Starts from `Idle` or `Stopped`, clearing the elapsed time and the laps.
    pub fn start(&mut self) -> (r: Result<(), TimerError>)
        ensures
            r is Err <==> !can_start(old(self)@.state),
            r is Err ==> r == Err::<(), TimerError>(TimerError::CannotStart(old(self)@.state)),
            r is Ok ==> final(self)@ == sw_started(old(self)@),
            r is Err ==> final(self)@ == old(self)@,
    {
        let r = self.clock.start();
        if r.is_ok() {
            self.laps = LapLog::new();
        }
        r
    }

    /// Pauses a running stopwatch, `running_ms` after its last start.
    pub fn pause_with(&mut self, running_ms: u64) -> (r: Result<(), TimerError>)
        ensures
            r is Err <==> old(self)@.state != TimerState::Running,
            r is Err ==> r == Err::<(), TimerError>(TimerError::CannotPause(old(self)@.state)),
            r is Ok ==> final(self)@ == sw_paused(old(self)@, running_ms),
            r is Err ==> final(self)@ == old(self)@,
    {
        self.clock.pause_with(running_ms)
    }

    /// Pauses a running stopwatch; the clock is read.
    pub fn pause(&mut self) -> (r: Result<(), TimerError>)
        ensures
            r is Err <==> old(self)@.state != TimerState::Running,
            r is Err ==> r == Err::<(), TimerError>(TimerError::CannotPause(old(self)@.state)),
            r is Ok ==> exists|ms: u64| final(self)@ == sw_paused(old(self)@, ms),
            r is Err ==> final(self)@ == old(self)@,
    {
        let ms = self.clock.running_ms();
        self.pause_with(ms)
    }

    /// Resumes a paused stopwatch.
    pub fn resume(&mut self) -> (r: Result<(), TimerError>)
        ensures
            r is Err <==> old(self)@.state != TimerState::Paused,
            r is Err ==> r == Err::<(), TimerError>(TimerError::CannotResume(old(self)@.state)),
            r is Ok ==> final(self)@ == sw_resumed(old(self)@),
            r is Err ==> final(self)@ == old(self)@,
    {
        self.clock.resume()
    }

    /// Stops the stopwatch, `running_ms` after its last start, and returns
    /// the elapsed milliseconds.
    pub fn stop_with(&mut self, running_ms: u64) -> (r: u64)
        ensures
            final(self)@ == sw_stopped(old(self)@, running_ms),
            r == final(self)@.elapsed,
    {
        self.clock.stop_with(running_ms)
    }

    /// Stops the stopwatch and returns the elapsed milliseconds; the clock is
    /// read if it was running.
    pub fn stop(&mut self) -> (r: u64)
        ensures
            exists|ms: u64| final(self)@ == sw_stopped(old(self)@, ms),
            r == final(self)@.elapsed,
            old(self)@.state != TimerState::Running ==> r == old(self)@.elapsed,
    {
        let ms = self.clock.running_ms();
        self.stop_with(ms)
    }

    /// Records a lap while running, the clock reading `running_ms` since the
    /// last start: the lap's total is the elapsed time at that reading.
    pub fn lap_with(&mut self, running_ms: u64) -> (r: Result<Lap, TimerError>)
        requires
            old(self)@.state == TimerState::Running ==> old(self)@.laps.len() < u32::MAX,
        ensures
            r is Err <==> old(self)@.state != TimerState::Running,
            r is Err ==> r == Err::<Lap, TimerError>(TimerError::LapWhenNotRunning(old(self)@.state)),
            r is Ok ==> final(self)@ == sw_lapped(old(self)@, running_ms) && r == Ok::<
                Lap,
                TimerError,
            >(sw_next_lap(old(self)@, running_ms)),
            r is Err ==> final(self)@ == old(self)@,
    {
        let state = self.clock.state();
        if state != TimerState::Running {
            return Err(TimerError::LapWhenNotRunning(state));
        }
        let current = self.clock.elapsed_with(running_ms);
        let lap = self.laps.record(current);
        Ok(lap)
    }

    /// Records a lap while running; the clock is read once, and the lap's
    /// total is the elapsed time at that reading.
    pub fn lap(&mut self) -> (r: Result<Lap, TimerError>)
        requires
            old(self)@.state == TimerState::Running ==> old(self)@.laps.len() < u32::MAX,
        ensures
            r is Err <==> old(self)@.state != TimerState::Running,
            r is Err ==> r == Err::<Lap, TimerError>(TimerError::LapWhenNotRunning(old(self)@.state)),
            r is Ok ==> exists|ms: u64|
                final(self)@ == sw_lapped(old(self)@, ms) && r == Ok::<Lap, TimerError>(
                    sw_next_lap(old(self)@, ms),
                ),
            r is Err ==> final(self)@ == old(self)@,
    {
        let ms = self.clock.running_ms();
        self.lap_with(ms)
    }
}

impl Default for Stopwatch {
    fn default() -> (sw: Stopwatch)
        ensures
            sw@ == (StopwatchView { state: TimerState::Idle, elapsed: 0, laps: Seq::empty() }),
    {
        Stopwatch::new()
    }
}

// ------------------------------------------------------------------
// Countdown
// ------------------------------------------------------------------

/// What a countdown holds: its length, its state and the milliseconds
/// accumulated up to its last pause or stop.
pub struct CountdownView {
    pub duration: u64,
    pub state: TimerState,
    pub elapsed: u64,
}

/// The elapsed time of a countdown, `running_ms` after its last start.
pub open spec fn cd_elapsed(v: CountdownView, running_ms: u64) -> u64 {
    clock_elapsed(RunClockView { state: v.state, elapsed: v.elapsed }, running_ms)
}

/// The time left, `running_ms` after the last start: never below zero.
pub open spec fn cd_remaining(v: CountdownView, running_ms: u64) -> u64 {
    sub_ms(v.duration, cd_elapsed(v, running_ms))
}

/// A countdown after a successful `start`: running from zero.
pub open spec fn cd_started(v: CountdownView) -> CountdownView {
    CountdownView { duration: v.duration, state: TimerState::Running, elapsed: 0 }
}

/// A running countdown after `pause`, `running_ms` after its last start.
pub open spec fn cd_paused(v: CountdownView, running_ms: u64) -> CountdownView {
    CountdownView { duration: v.duration, state: TimerState::Paused, elapsed: add_ms(v.elapsed, running_ms) }
}

/// A paused countdown after `resume`.
pub open spec fn cd_resumed(v: CountdownView) -> CountdownView {
    CountdownView { duration: v.duration, state: TimerState::Running, elapsed: v.elapsed }
}

/// A countdown after `stop`, `running_ms` after its last start.
pub open spec fn cd_stopped(v: CountdownView, running_ms: u64) -> CountdownView {
    CountdownView { duration: v.duration, state: TimerState::Stopped, elapsed: cd_elapsed(v, running_ms) }
}

/// A countdown timer that runs for a given number of milliseconds.
pub struct Countdown {
    duration: u64,
    clock: RunClock,
}

impl View for Countdown {
    type V = CountdownView;

    closed spec fn view(&self) -> CountdownView {
        CountdownView { duration: self.duration, state: self.clock.view().state, elapsed: self.clock.view().elapsed }
    }
}

impl Countdown {
    /// A new idle countdown of `duration` milliseconds.
    pub fn new(duration: u64) -> (cd: Countdown)
        ensures
            cd@ == (CountdownView { duration: duration, state: TimerState::Idle, elapsed: 0 }),
    {
        Countdown { duration, clock: RunClock::new() }
    }

    pub fn state(&self) -> (s: TimerState)
        ensures
            s == self@.state,
    {
        self.clock.state()
    }

    pub fn duration(&self) -> (d: u64)
        ensures
            d == self@.duration,
    {
        self.duration
    }

    /// Elapsed milliseconds, `running_ms` after the last start.
    pub fn elapsed_with(&self, running_ms: u64) -> (r: u64)
        ensures
            r == cd_elapsed(self@, running_ms),
    {
        self.clock.elapsed_with(running_ms)
    }

    /// Milliseconds since the last start, read from the monotonic clock
    /// while running; zero otherwise.
    pub fn running_ms(&self) -> (ms: u64)
        ensures
            self@.state != TimerState::Running ==> ms == 0,
    {
        self.clock.running_ms()
    }

    /// Elapsed milliseconds; while running, the clock is read.
    pub fn elapsed(&self) -> (r: u64)
        ensures
            exists|ms: u64| r == cd_elapsed(self@, ms),
            self@.state != TimerState::Running ==> r == self@.elapsed,
    {
        let ms = self.clock.running_ms();
        self.elapsed_with(ms)
    }

    /// Milliseconds left, `running_ms` after the last start.
    pub fn remaining_with(&self, running_ms: u64) -> (r: u64)
        ensures
            r == cd_remaining(self@, running_ms),
    {
        let elapsed = self.clock.elapsed_with(running_ms);
        self.duration.saturating_sub(elapsed)
    }

    /// Milliseconds left; while running, the clock is read.
    pub fn remaining(&self) -> (r: u64)
        ensures
            exists|ms: u64| r == cd_remaining(self@, ms),
            self@.state != TimerState::Running ==> r == sub_ms(self@.duration, self@.elapsed),
    {
        let ms = self.clock.running_ms();
        self.remaining_with(ms)
    }

    /// Whether no time is left, `running_ms` after the last start.
    pub fn is_finished_with(&self, running_ms: u64) -> (r: bool)
        ensures
            r == (cd_remaining(self@, running_ms) == 0),
    {
        self.remaining_with(running_ms) == 0
    }

    /// Whether no time is left; while running, the clock is read.
    pub fn is_finished(&self) -> (r: bool)
        ensures
            exists|ms: u64| r == (cd_remaining(self@, ms) == 0),
            self@.state != TimerState::Running ==> r == (self@.elapsed >= self@.duration),
    {
        let ms = self.clock.running_ms();
        self.is_finished_with(ms)
    }

    /// Starts from `Idle` or `Stopped`, from zero.
    pub fn start(&mut self) -> (r: Result<(), TimerError>)
        ensures
            r is Err <==> !can_start(old(self)@.state),
            r is Err ==> r == Err::<(), TimerError>(TimerError::CannotStart(old(self)@.state)),
            r is Ok ==> final(self)@ == cd_started(old(self)@),
            r is Err ==> final(self)@ == old(self)@,
    {
        self.clock.start()
    }

    /// Pauses a running countdown, `running_ms` after its last start.
    pub fn pause_with(&mut self, running_ms: u64) -> (r: Result<(), TimerError>)
        ensures
            r is Err <==> old(self)@.state != TimerState::Running,
            r is Err ==> r == Err::<(), TimerError>(TimerError::CannotPause(old(self)@.state)),
            r is Ok ==> final(self)@ == cd_paused(old(self)@, running_ms),
            r is Err ==> final(self)@ == old(self)@,
    {
        self.clock.pause_with(running_ms)
    }

    /// Pauses a running countdown; the clock is read.
    pub fn pause(&mut self) -> (r: Result<(), TimerError>)
        ensures
            r is Err <==> old(self)@.state != TimerState::Running,
            r is Err ==> r == Err::<(), TimerError>(TimerError::CannotPause(old(self)@.state)),
            r is Ok ==> exists|ms: u64| final(self)@ == cd_paused(old(self)@, ms),
            r is Err ==> final(self)@ == old(self)@,
    {
        let ms = self.clock.running_ms();
        self.pause_with(ms)
    }

    /// Resumes a paused countdown.
    pub fn resume(&mut self) -> (r: Result<(), TimerError>)
        ensures
            r is Err <==> old(self)@.state != TimerState::Paused,
            r is Err ==> r == Err::<(), TimerError>(TimerError::CannotResume(old(self)@.state)),
            r is Ok ==> final(self)@ == cd_resumed(old(self)@),
            r is Err ==> final(self)@ == old(self)@,
    {
        self.clock.resume()
    }

    /// Stops the countdown, `running_ms` after its last start, and returns the
    /// elapsed milliseconds.
    pub fn stop_with(&mut self, running_ms: u64) -> (r: u64)
        ensures
            final(self)@ == cd_stopped(old(self)@, running_ms),
            r == final(self)@.elapsed,
    {
        self.clock.stop_with(running_ms)
    }

    /// Stops the countdown and returns the elapsed milliseconds; the clock is
    /// read if it was running.
    pub fn stop(&mut self) -> (r: u64)
        ensures
            exists|ms: u64| final(self)@ == cd_stopped(old(self)@, ms),
            r == final(self)@.elapsed,
            old(self)@.state != TimerState::Running ==> r == old(self)@.elapsed,
    {
        let ms = self.clock.running_ms();
        self.stop_with(ms)
    }
}

// ------------------------------------------------------------------
// Laws
// ------------------------------------------------------------------

/// Sum of the splits of the first `n` laps.
pub open spec fn split_sum(laps: Seq<Lap>, n: int) -> int
    decreases n,
{
    if n <= 0 {
        0
    } else {
        split_sum(laps, n - 1) + laps[n - 1].split
    }
}

/// Unless a stopwatch is running, its elapsed time does not depend on the clock.
pub proof fn law_elapsed_frozen_unless_running(v: StopwatchView, a: u64, b: u64)
    requires
        v.state != TimerState::Running,
    ensures
        sw_elapsed(v, a) == sw_elapsed(v, b) == v.elapsed,
{
}

/// While a stopwatch runs, a later clock reading never shows less elapsed time.
pub proof fn law_elapsed_grows_while_running(v: StopwatchView, a: u64, b: u64)
    requires
        a <= b,
    ensures
        sw_elapsed(v, a) <= sw_elapsed(v, b),
{
}

/// What `stop` returns is what the stopwatch shows from then on, and stopping
/// again changes nothing.
pub proof fn law_stop_is_final(v: StopwatchView, a: u64, b: u64)
    ensures
        sw_elapsed(sw_stopped(v, a), b) == sw_stopped(v, a).elapsed,
        sw_stopped(sw_stopped(v, a), b) == sw_stopped(v, a),
{
}

/// Pausing and then resuming a running stopwatch carries on from the time it
/// showed when paused, keeping its laps.
pub proof fn law_pause_then_resume(v: StopwatchView, ms: u64)
    requires
        v.state == TimerState::Running,
    ensures
        sw_resumed(sw_paused(v, ms)).state == TimerState::Running,
        sw_resumed(sw_paused(v, ms)).laps == v.laps,
        sw_elapsed(sw_resumed(sw_paused(v, ms)), 0) == sw_elapsed(v, ms),
{
}

/// Starting again after a stop runs from zero with no laps.
pub proof fn law_restart_is_fresh(v: StopwatchView, ms: u64)
    ensures
        can_start(sw_stopped(v, ms).state),
        sw_started(sw_stopped(v, ms)).state == TimerState::Running,
        sw_started(sw_stopped(v, ms)).elapsed == 0,
        sw_started(sw_stopped(v, ms)).laps.len() == 0,
{
}

/// Recording a lap keeps the laps numbered from 1 with consistent splits.
pub proof fn law_lap_keeps_laps_wf(v: StopwatchView, ms: u64)
    requires
        laps_wf(v.laps),
        v.laps.len() < u32::MAX,
    ensures
        laps_wf(sw_lapped(v, ms).laps),
        sw_lapped(v, ms).laps.len() == v.laps.len() + 1,
{
    lemma_push_keeps_laps_wf(v.laps, sw_next_lap(v, ms));
}

/// A lap's total is the elapsed time the stopwatch shows at that reading, and
/// recording it leaves the elapsed time as it was.
pub proof fn law_lap_total_is_elapsed(v: StopwatchView, ms: u64)
    ensures
        sw_next_lap(v, ms).total == sw_elapsed(v, ms),
        sw_elapsed(sw_lapped(v, ms), ms) == sw_elapsed(v, ms),
        sw_lapped(v, ms).state == v.state,
{
}

/// No lap shows more than the stopwatch shows later: a lap taken at reading
/// `a`, then a later reading `b`, gives an elapsed time and a stop result no
/// smaller than the lap's total.
pub proof fn law_lap_within_later_stop(v: StopwatchView, a: u64, b: u64)
    requires
        a <= b,
    ensures
        sw_next_lap(v, a).total <= sw_elapsed(sw_lapped(v, a), b),
        sw_next_lap(v, a).total <= sw_stopped(sw_lapped(v, a), b).elapsed,
{
}

/// Two laps of one run, taken at readings `a <= b`: the later total is no
/// smaller, and the later split is what passed between them.
pub proof fn law_successive_laps_grow(v: StopwatchView, a: u64, b: u64)
    requires
        v.state == TimerState::Running,
        a <= b,
    ensures
        sw_next_lap(sw_lapped(v, a), b).total >= sw_next_lap(v, a).total,
        sw_next_lap(sw_lapped(v, a), b).split >= 0,
        sw_next_lap(sw_lapped(v, a), b).split == sw_next_lap(sw_lapped(v, a), b).total - sw_next_lap(
            v,
            a,
        ).total,
{
}

/// A paused stopwatch, once resumed, shows its paused time plus what the
/// clock reads since the resume, saturating at the `u64` cap: the paused
/// interval is not counted, and any time since the resume shows more than
/// the paused time until the cap is reached.
pub proof fn law_resume_continues(v: StopwatchView, t: u64)
    requires
        v.state == TimerState::Paused,
    ensures
        sw_resumed(v).state == TimerState::Running,
        sw_elapsed(sw_resumed(v), t) == add_ms(v.elapsed, t),
        v.elapsed + t <= u64::MAX ==> sw_elapsed(sw_resumed(v), t) == v.elapsed + t,
        t > 0 && v.elapsed < u64::MAX ==> sw_elapsed(sw_resumed(v), t) > sw_elapsed(v, t),
{
}

/// The splits of consistent laps add up to the total of the last lap.
pub proof fn law_splits_add_up(laps: Seq<Lap>, n: int)
    requires
        laps_wf(laps),
        0 <= n <= laps.len(),
    ensures
        split_sum(laps, n) == prev_total(laps, n),
    decreases n,
{
    if n > 0 {
        law_splits_add_up(laps, n - 1);
        assert(laps[n - 1].lap == n);
    }
}

/// The time left and the elapsed time of a countdown make up its length
/// until it runs out; it has run out exactly when the elapsed time reaches
/// its length; it never has more left than its length.
pub proof fn law_countdown_remaining(v: CountdownView, ms: u64)
    ensures
        cd_elapsed(v, ms) <= v.duration ==> cd_remaining(v, ms) + cd_elapsed(v, ms) == v.duration,
        (cd_remaining(v, ms) == 0) <==> cd_elapsed(v, ms) >= v.duration,
        cd_remaining(v, ms) <= v.duration,
{
}

/// While a countdown runs, a later clock reading never shows more time left;
/// unless it runs, the time left does not depend on the clock.
pub proof fn law_countdown_remaining_shrinks(v: CountdownView, a: u64, b: u64)
    requires
        a <= b,
    ensures
        cd_remaining(v, b) <= cd_remaining(v, a),
        v.state != TimerState::Running ==> cd_remaining(v, a) == cd_remaining(v, b),
{
}

} // verus!
