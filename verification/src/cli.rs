//! Command-line commands, and what each asks of the timers.
use crate::pomodoro::{PomodoroPhase, PomodoroTimer};
use crate::timer::{Countdown, CountdownView, Stopwatch, StopwatchView, TimerState};
use vstd::prelude::*;

verus! {

/// Why a duration such as `1h30m` was refused.
#[derive(Debug, Clone, Copy, PartialEq, Eq, Structural)]
pub enum DurationError {
    /// The text is empty.
    Empty,
    /// No digit where a number must start, at this character position.
    ExpectedNumber(usize),
    /// A number is followed by something other than `h`, `m` or `s`.
    UnknownUnit(char),
    /// The duration adds up to zero seconds.
    NotPositive,
    /// The duration does not fit in `u64` seconds.
    TooLarge,
}

/// `c` is one of `0` to `9`.
pub open spec fn is_digit(c: char) -> bool {
    48 <= c as u32 <= 57
}

/// The value of the digit `c`.
pub open spec fn digit_value(c: char) -> int {
    c as u32 - 48
}

/// The index of the first non-digit at or after `i`.
pub open spec fn digits_end(s: Seq<char>, i: int) -> int
    decreases s.len() - i,
{
    if 0 <= i < s.len() && is_digit(s[i]) {
        digits_end(s, i + 1)
    } else {
        i
    }
}

/// The decimal number written in `s[i..j]`.
pub open spec fn digits_value(s: Seq<char>, i: int, j: int) -> int
    decreases j - i,
{
    if j <= i {
        0
    } else {
        digits_value(s, i, j - 1) * 10 + digit_value(s[j - 1])
    }
}

/// Seconds in one unit: `h`, `m` or `s`.
pub open spec fn unit_seconds(c: char) -> Option<int> {
    if c == 'h' {
        Some(3600)
    } else if c == 'm' {
        Some(60)
    } else if c == 's' {
        Some(1)
    } else {
        None
    }
}

/// The seconds written in `s[i..]`: numbers each followed by a unit, the last
/// of them possibly without one (then it counts seconds); or the first error
/// from the left.
pub open spec fn seconds_from(s: Seq<char>, i: int) -> Result<int, DurationError>
    decreases s.len() - i,
{
    if i < 0 || i >= s.len() {
        Ok(0)
    } else {
        let j = digits_end(s, i);
        if j <= i {
            Err(DurationError::ExpectedNumber(i as usize))
        } else if j >= s.len() {
            Ok(digits_value(s, i, j))
        } else {
            match unit_seconds(s[j]) {
                None => Err(DurationError::UnknownUnit(s[j])),
                Some(f) => match seconds_from(s, j + 1) {
                    Ok(rest) => Ok(digits_value(s, i, j) * f + rest),
                    Err(e) => Err(e),
                },
            }
        }
    }
}

/// What `parse_duration` returns for `s`.
pub open spec fn duration_result(s: Seq<char>) -> Result<u64, DurationError> {
    if s.len() == 0 {
        Err(DurationError::Empty)
    } else {
        match seconds_from(s, 0) {
            Err(e) => Err(e),
            Ok(t) => if t <= 0 {
                Err(DurationError::NotPositive)
            } else if t > u64::MAX {
                Err(DurationError::TooLarge)
            } else {
                Ok(t as u64)
            },
        }
    }
}

/// The bound at which the running sums below stop growing: one above the
/// largest `u64`.
pub open spec fn sum_cap() -> int {
    0x1_0000_0000_0000_0000
}

/// `x`, but no more than `sum_cap()`.
pub open spec fn capped(x: int) -> int {
    if x > sum_cap() {
        sum_cap()
    } else {
        x
    }
}

/// `r` with `acc` added to the seconds, if it is a number of seconds.
pub open spec fn plus(r: Result<int, DurationError>, acc: int) -> Result<int, DurationError> {
    match r {
        Ok(t) => Ok(acc + t),
        Err(e) => Err(e),
    }
}

proof fn lemma_digits_value_nonneg(s: Seq<char>, i: int, j: int)
    requires
        forall|k: int| i <= k < j ==> is_digit(#[trigger] s[k]),
    ensures
        digits_value(s, i, j) >= 0,
    decreases j - i,
{
    if j > i {
        lemma_digits_value_nonneg(s, i, j - 1);
    }
}

proof fn lemma_seconds_nonneg(s: Seq<char>, i: int)
    ensures
        seconds_from(s, i) matches Ok(t) ==> t >= 0,
    decreases s.len() - i,
{
    if 0 <= i < s.len() {
        let j = digits_end(s, i);
        lemma_digits_end(s, i);
        if j > i {
            lemma_digits_value_nonneg(s, i, j);
            if j < s.len() {
                lemma_seconds_nonneg(s, j + 1);
            }
        }
    }
}

proof fn lemma_digits_end(s: Seq<char>, i: int)
    ensures
        digits_end(s, i) >= i,
        forall|k: int| i <= k < digits_end(s, i) ==> is_digit(#[trigger] s[k]),
        0 <= i ==> digits_end(s, i) <= s.len() || digits_end(s, i) == i,
    decreases s.len() - i,
{
    if 0 <= i < s.len() && is_digit(s[i]) {
        lemma_digits_end(s, i + 1);
    }
}

/// Parse a duration such as `5m`, `1h30m`, `90s` or `2h` into seconds. A
/// number without a unit at the end counts seconds.
pub fn parse_duration(value: &str) -> (r: Result<u64, DurationError>)
    ensures
        r == duration_result(value@),
{
    let n = value.unicode_len();
    if n == 0 {
        return Err(DurationError::Empty);
    }
    let ghost s = value@;
    let cap: u128 = 0x1_0000_0000_0000_0000;
    let mut total: u128 = 0;
    let ghost mut acc: int = 0;
    let mut i: usize = 0;
    while i < n
        invariant
            n == s.len(),
            s == value@,
            cap == sum_cap(),
            0 <= i <= n,
            acc >= 0,
            total == capped(acc),
            seconds_from(s, 0) == plus(seconds_from(s, i as int), acc),
        decreases n - i,
    {
        let start = i;
        let mut num: u128 = 0;
        proof {
            lemma_digits_end(s, start as int);
        }
        loop
            invariant
                n == s.len(),
                s == value@,
                cap == sum_cap(),
                start <= i <= n,
                digits_end(s, start as int) == digits_end(s, i as int),
                forall|k: int| start <= k < i ==> is_digit(#[trigger] s[k]),
                num == capped(digits_value(s, start as int, i as int)),
            ensures
                i < n ==> !is_digit(s[i as int]),
            decreases n - i,
        {
            if i >= n {
                break;
            }
            let c = value.get_char(i);
            let cu = c as u32;
            if cu < 48 || cu > 57 {
                break;
            }
            proof {
                lemma_digits_value_nonneg(s, start as int, i as int);
            }
            let d = (cu - 48) as u128;
            let next = num * 10 + d;
            num = if next > cap {
                cap
            } else {
                next
            };
            i = i + 1;
        }
        proof {
            lemma_digits_value_nonneg(s, start as int, i as int);
            lemma_seconds_nonneg(s, i as int + 1);
            assert(digits_end(s, i as int) == i as int);
            assert(digits_end(s, start as int) == i as int);
        }
        if start == i {
            assert(seconds_from(s, start as int) == Err::<int, DurationError>(
                DurationError::ExpectedNumber(start),
            ));
            return Err(DurationError::ExpectedNumber(i));
        }
        let ghost value_here = digits_value(s, start as int, i as int);
        if i >= n {
            let next = total + num;
            total = if next > cap {
                cap
            } else {
                next
            };
            proof {
                acc = acc + value_here;
            }
        } else {
            let unit = value.get_char(i);
            let factor: u128 = if unit == 'h' {
                3600
            } else if unit == 'm' {
                60
            } else if unit == 's' {
                1
            } else {
                assert(unit_seconds(s[i as int]) is None);
                assert(seconds_from(s, start as int) == Err::<int, DurationError>(
                    DurationError::UnknownUnit(unit),
                ));
                return Err(DurationError::UnknownUnit(unit));
            };
            let scaled = num * factor;
            let scaled = if scaled > cap {
                cap
            } else {
                scaled
            };
            let next = total + scaled;
            total = if next > cap {
                cap
            } else {
                next
            };
            proof {
                assert(value_here * factor >= 0) by (nonlinear_arith)
                    requires
                        value_here >= 0,
                        factor >= 1,
                ;
                assert(capped(value_here * factor) == capped(capped(value_here) * factor)) by (nonlinear_arith)
                    requires
                        value_here >= 0,
                        factor >= 1,
                        sum_cap() > 0,
                ;
                acc = acc + value_here * factor;
            }
            i = i + 1;
        }
    }
    if total == 0 {
        Err(DurationError::NotPositive)
    } else if total >= cap {
        Err(DurationError::TooLarge)
    } else {
        Ok(total as u64)
    }
}

// ------------------------------------------------------------------
// Durations written one after another
// ------------------------------------------------------------------

/// `c` ends a number with a unit.
pub open spec fn is_unit(c: char) -> bool {
    unit_seconds(c) is Some
}

proof fn lemma_digits_end_prefix(a: Seq<char>, b: Seq<char>, i: int)
    requires
        0 <= i,
        digits_end(a, i) < a.len(),
    ensures
        digits_end(a + b, i) == digits_end(a, i),
    decreases a.len() - i,
{
    if i < a.len() && is_digit(a[i]) {
        lemma_digits_end_prefix(a, b, i + 1);
    }
}

proof fn lemma_digits_value_prefix(a: Seq<char>, b: Seq<char>, i: int, j: int)
    requires
        0 <= i <= j <= a.len(),
    ensures
        digits_value(a + b, i, j) == digits_value(a, i, j),
    decreases j - i,
{
    if j > i {
        lemma_digits_value_prefix(a, b, i, j - 1);
        assert((a + b)[j - 1] == a[j - 1]);
    }
}

proof fn lemma_digits_end_suffix(p: Seq<char>, q: Seq<char>, k: int)
    requires
        0 <= k,
    ensures
        digits_end(p + q, p.len() + k) == p.len() + digits_end(q, k),
    decreases q.len() - k,
{
    if k < q.len() {
        assert((p + q)[p.len() + k] == q[k]);
        if is_digit(q[k]) {
            lemma_digits_end_suffix(p, q, k + 1);
        }
    }
}

proof fn lemma_digits_value_suffix(p: Seq<char>, q: Seq<char>, k: int, m: int)
    requires
        0 <= k <= m <= q.len(),
    ensures
        digits_value(p + q, p.len() + k, p.len() + m) == digits_value(q, k, m),
    decreases m - k,
{
    if m > k {
        lemma_digits_value_suffix(p, q, k, m - 1);
        assert((p + q)[p.len() + m - 1] == q[m - 1]);
    }
}

/// What `q` reads from position `k` on, `p + q` reads from `p.len() + k` on.
proof fn lemma_seconds_suffix(p: Seq<char>, q: Seq<char>, k: int)
    requires
        0 <= k,
        seconds_from(q, k) is Ok,
    ensures
        seconds_from(p + q, p.len() + k) == seconds_from(q, k),
    decreases q.len() - k,
{
    if k < q.len() {
        let j = digits_end(q, k);
        lemma_digits_end(q, k);
        lemma_digits_end_suffix(p, q, k);
        lemma_digits_value_suffix(p, q, k, j);
        if j < q.len() {
            assert((p + q)[p.len() + j] == q[j]);
            lemma_seconds_suffix(p, q, j + 1);
            assert(p.len() + j + 1 == p.len() + (j + 1));
        }
    }
}

/// Reading `a + b` from a position `i` of `a`, where `a` ends with a unit,
/// gives what `a` reads from `i` plus what `b` reads.
proof fn lemma_seconds_concat_from(a: Seq<char>, b: Seq<char>, i: int, y: int)
    requires
        0 <= i <= a.len(),
        a.len() > 0,
        is_unit(a.last()),
        seconds_from(a, i) is Ok,
        seconds_from(b, 0) == Ok::<int, DurationError>(y),
    ensures
        seconds_from(a + b, i) == plus(seconds_from(a, i), y),
    decreases a.len() - i,
{
    if i == a.len() {
        lemma_seconds_suffix(a, b, 0);
    } else {
        let j = digits_end(a, i);
        lemma_digits_end(a, i);
        if j >= a.len() {
            assert(is_digit(a[a.len() - 1]));
            assert(false);
        }
        lemma_digits_end_prefix(a, b, i);
        lemma_digits_value_prefix(a, b, i, j);
        assert((a + b)[j] == a[j]);
        lemma_seconds_concat_from(a, b, j + 1, y);
    }
}

/// Two durations written one after the other, the first ending with a unit,
/// read as the sum of the two: `1h` then `30m` reads as `1h30m`.
pub proof fn law_concatenated_durations_add(a: Seq<char>, b: Seq<char>, x: int, y: int)
    requires
        a.len() > 0,
        is_unit(a.last()),
        seconds_from(a, 0) == Ok::<int, DurationError>(x),
        seconds_from(b, 0) == Ok::<int, DurationError>(y),
    ensures
        seconds_from(a + b, 0) == Ok::<int, DurationError>(x + y),
{
    lemma_seconds_concat_from(a, b, 0, y);
}

/// What `parse_duration` accepts, written one after the other with the first
/// ending in a unit, it accepts as the sum, while that fits in `u64` seconds.
pub proof fn law_parse_concatenated(a: Seq<char>, b: Seq<char>, x: u64, y: u64)
    requires
        a.len() > 0,
        is_unit(a.last()),
        duration_result(a) == Ok::<u64, DurationError>(x),
        duration_result(b) == Ok::<u64, DurationError>(y),
        x + y <= u64::MAX,
    ensures
        duration_result(a + b) == Ok::<u64, DurationError>((x + y) as u64),
{
    law_concatenated_durations_add(a, b, x as int, y as int);
}

// ------------------------------------------------------------------
// Commands
// ------------------------------------------------------------------

/// The subcommands. Pomodoro lengths are in minutes.
#[derive(Debug)]
pub enum Commands {
    /// Start a stopwatch with lap timing
    Stopwatch,
    /// Start a countdown timer
    Countdown { duration: String },
    /// Start a pomodoro timer with work/break cycling
    Pomodoro { work: u32, break_duration: u32, cycles: u32, long_break: u32 },
    /// Show session history
    History { limit: usize, session_type: Option<String> },
}

/// The parsed command line.
#[derive(Debug)]
pub struct Args {
    pub command: Commands,
}

/// Why a command was refused.
#[derive(Debug, PartialEq, Eq)]
pub enum CliError {
    /// The countdown's duration was refused.
    Duration(DurationError),
    /// A pomodoro length or the number of cycles is zero.
    NonPositivePomodoro,
    /// The history filter names no session type.
    InvalidSessionType(String),
}

/// What a command asks to run.
pub enum Plan {
    Stopwatch(Stopwatch),
    Countdown(Countdown),
    Pomodoro(PomodoroTimer),
    History { limit: usize, session_type: Option<String> },
}

/// The milliseconds of a countdown given as `s`, or why it is refused.
pub open spec fn countdown_ms(s: Seq<char>) -> Result<u64, DurationError> {
    match duration_result(s) {
        Err(e) => Err(e),
        Ok(secs) => if secs * 1000 > u64::MAX {
            Err(DurationError::TooLarge)
        } else {
            Ok((secs * 1000) as u64)
        },
    }
}

/// The session types that the history can be filtered by.
pub open spec fn is_session_type(t: Seq<char>) -> bool {
    t == "stopwatch"@ || t == "countdown"@ || t == "pomodoro"@
}

/// The history filter is given and names no session type.
pub open spec fn bad_filter(session_type: Option<String>) -> bool {
    match session_type {
        Some(t) => !is_session_type(t@),
        None => false,
    }
}

/// A fresh stopwatch for a stopwatch session.
pub fn run_stopwatch() -> (sw: Stopwatch)
    ensures
        sw@ == (StopwatchView { state: TimerState::Idle, elapsed: 0, laps: Seq::empty() }),
{
    Stopwatch::new()
}

/// The countdown for a duration such as `5m`, `1h30m` or `90s`.
pub fn run_countdown(duration_str: &str) -> (r: Result<Countdown, CliError>)
    ensures
        countdown_ms(duration_str@) matches Err(e) ==> r == Err::<Countdown, CliError>(CliError::Duration(e)),
        countdown_ms(duration_str@) matches Ok(ms) ==> (r matches Ok(cd) && cd@ == (CountdownView {
            duration: ms,
            state: TimerState::Idle,
            elapsed: 0,
        })),
{
    let seconds = match parse_duration(duration_str) {
        Ok(s) => s,
        Err(e) => return Err(CliError::Duration(e)),
    };
    if seconds > u64::MAX / 1000 {
        return Err(CliError::Duration(DurationError::TooLarge));
    }
    Ok(Countdown::new(seconds * 1000))
}

/// The pomodoro timer for lengths in minutes; all must be positive.
pub fn run_pomodoro(work: u32, break_duration: u32, cycles: u32, long_break: u32) -> (r: Result<
    PomodoroTimer,
    CliError,
>)
    ensures
        r is Err <==> (work == 0 || break_duration == 0 || cycles == 0 || long_break == 0),
        r is Err ==> r == Err::<PomodoroTimer, CliError>(CliError::NonPositivePomodoro),
        r matches Ok(pt) ==> {
            &&& pt.work_duration == work * 60000
            &&& pt.break_duration == break_duration * 60000
            &&& pt.long_break_duration == long_break * 60000
            &&& pt.cycles_target == cycles
            &&& pt.current_cycle == 0
            &&& pt.phase == PomodoroPhase::Work
            &&& pt.cycles@.len() == 0
            &&& pt.completed_cycles == 0
        },
{
    if work == 0 || break_duration == 0 || cycles == 0 || long_break == 0 {
        return Err(CliError::NonPositivePomodoro);
    }
    Ok(
        PomodoroTimer::new(
            work as u64 * 60000,
            break_duration as u64 * 60000,
            long_break as u64 * 60000,
            cycles,
        ),
    )
}

/// Checks the history filter, which must name a session type if given.
pub fn run_history(limit: usize, session_type: Option<String>) -> (r: Result<
    (usize, Option<String>),
    CliError,
>)
    ensures
        bad_filter(session_type) ==> r == Err::<(usize, Option<String>), CliError>(
            CliError::InvalidSessionType(session_type->0),
        ),
        !bad_filter(session_type) ==> r == Ok::<
            (usize, Option<String>),
            CliError,
        >((limit, session_type)),
{
    match &session_type {
        Some(st) => {
            let stopwatch = String::from_str("stopwatch");
            let countdown = String::from_str("countdown");
            let pomodoro = String::from_str("pomodoro");
            if *st != stopwatch && *st != countdown && *st != pomodoro {
                return Err(CliError::InvalidSessionType(st.clone()));
            }
        },
        None => {},
    }
    Ok((limit, session_type))
}

/// What the command asks to run, or why it is refused.
pub fn run(args: Args) -> (r: Result<Plan, CliError>)
    ensures
        args.command matches Commands::Stopwatch ==> (r matches Ok(Plan::Stopwatch(sw)) && sw@
            == (StopwatchView { state: TimerState::Idle, elapsed: 0, laps: Seq::empty() })),
        args.command matches Commands::Countdown { duration } ==> {
            &&& countdown_ms(duration@) matches Err(e) ==> r == Err::<Plan, CliError>(
                CliError::Duration(e),
            )
            &&& countdown_ms(duration@) matches Ok(ms) ==> (r matches Ok(Plan::Countdown(cd))
                && cd@ == (CountdownView { duration: ms, state: TimerState::Idle, elapsed: 0 }))
        },
        args.command matches Commands::Pomodoro { work, break_duration, cycles, long_break } ==> {
            &&& (work == 0 || break_duration == 0 || cycles == 0 || long_break == 0) ==> r
                == Err::<Plan, CliError>(CliError::NonPositivePomodoro)
            &&& !(work == 0 || break_duration == 0 || cycles == 0 || long_break == 0) ==> (r matches Ok(
                Plan::Pomodoro(pt),
            ) && pt.work_duration == work * 60000 && pt.break_duration == break_duration * 60000
                && pt.long_break_duration == long_break * 60000 && pt.cycles_target == cycles
                && pt.current_cycle == 0 && pt.phase == PomodoroPhase::Work && pt.cycles@.len() == 0
                && pt.completed_cycles == 0)
        },
        args.command matches Commands::History { limit, session_type } ==> {
            &&& bad_filter(session_type) ==> r == Err::<Plan, CliError>(
                CliError::InvalidSessionType(session_type->0),
            )
            &&& !bad_filter(session_type) ==> (r matches Ok(
                Plan::History { limit: l, session_type: st },
            ) && l == limit && st == session_type)
        },
{
    match args.command {
        Commands::Stopwatch => Ok(Plan::Stopwatch(run_stopwatch())),
        Commands::Countdown { duration } => match run_countdown(duration.as_str()) {
            Ok(cd) => Ok(Plan::Countdown(cd)),
            Err(e) => Err(e),
        },
        Commands::Pomodoro { work, break_duration, cycles, long_break } => match run_pomodoro(
            work,
            break_duration,
            cycles,
            long_break,
        ) {
            Ok(pt) => Ok(Plan::Pomodoro(pt)),
            Err(e) => Err(e),
        },
        Commands::History { limit, session_type } => match run_history(limit, session_type) {
            Ok((l, st)) => Ok(Plan::History { limit: l, session_type: st }),
            Err(e) => Err(e),
        },
    }
}

} // verus!
