//! Pomodoro work/break cycling. Durations are whole milliseconds.
use vstd::prelude::*;

verus! {

/// Pomodoro timer phases.
#[derive(Debug, Clone, Copy, PartialEq, Eq, Structural)]
pub enum PomodoroPhase {
    Work,
    Break,
    LongBreak,
}

/// A recorded pomodoro cycle segment: the number of work cycles completed
/// when it was recorded, the phase it belongs to ("work", "break" or
/// "long_break") and its length in milliseconds.
#[derive(Debug)]
pub struct PomodoroCycle {
    pub cycle: u32,
    pub cycle_type: String,
    pub duration: u64,
}

impl Clone for PomodoroCycle {
    fn clone(&self) -> (r: Self)
        ensures
            r == *self,
    {
        PomodoroCycle { cycle: self.cycle, cycle_type: self.cycle_type.clone(), duration: self.duration }
    }
}

/// The label under which a segment of phase `p` is recorded.
pub open spec fn phase_label(p: PomodoroPhase) -> Seq<char> {
    match p {
        PomodoroPhase::Work => "work"@,
        PomodoroPhase::Break => "break"@,
        PomodoroPhase::LongBreak => "long_break"@,
    }
}

/// The phase, the position within the current round of work cycles, and the
/// number of completed work cycles, after one more phase when a round has
/// `target` work cycles: a work phase ends in a long break when it completes
/// the round (which starts a new one), in a short break otherwise; any break
/// ends in work.
pub open spec fn pomodoro_advanced(
    phase: PomodoroPhase,
    current: u32,
    completed: u32,
    target: u32,
) -> (PomodoroPhase, u32, u32) {
    match phase {
        PomodoroPhase::Work => if current + 1 >= target {
            (PomodoroPhase::LongBreak, 0u32, (completed + 1) as u32)
        } else {
            (PomodoroPhase::Break, (current + 1) as u32, (completed + 1) as u32)
        },
        _ => (PomodoroPhase::Work, current, completed),
    }
}

/// Pomodoro timer with work/break cycling.
pub struct PomodoroTimer {
    pub work_duration: u64,
    pub break_duration: u64,
    pub long_break_duration: u64,
    pub cycles_target: u32,
    pub current_cycle: u32,
    pub phase: PomodoroPhase,
    pub cycles: Vec<PomodoroCycle>,
    pub completed_cycles: u32,
}

impl PomodoroTimer {
    /// The length of phase `p` for this timer.
    pub open spec fn duration_of(&self, p: PomodoroPhase) -> u64 {
        match p {
            PomodoroPhase::Work => self.work_duration,
            PomodoroPhase::LongBreak => self.long_break_duration,
            PomodoroPhase::Break => self.break_duration,
        }
    }

    /// The settings of `self` and `other` agree.
    pub open spec fn same_settings(&self, other: &PomodoroTimer) -> bool {
        &&& self.work_duration == other.work_duration
        &&& self.break_duration == other.break_duration
        &&& self.long_break_duration == other.long_break_duration
        &&& self.cycles_target == other.cycles_target
    }

    /// `next` is this timer moved on to its next phase, with nothing else changed.
    pub open spec fn advanced_to(&self, next: &PomodoroTimer) -> bool {
        &&& (next.phase, next.current_cycle, next.completed_cycles) == pomodoro_advanced(
            self.phase,
            self.current_cycle,
            self.completed_cycles,
            self.cycles_target,
        )
        &&& next.same_settings(self)
        &&& next.cycles@ == self.cycles@
    }

    /// `next` is this timer with one more segment recorded: `duration`
    /// milliseconds of the current phase, numbered by the completed work
    /// cycles; nothing else changed.
    pub open spec fn recorded_to(&self, next: &PomodoroTimer, duration: u64) -> bool {
        &&& next.cycles@.len() == self.cycles@.len() + 1
        &&& forall|i: int|
            0 <= i < self.cycles@.len() ==> #[trigger] next.cycles@[i] == self.cycles@[i]
        &&& next.cycles@.last().cycle == self.completed_cycles
        &&& next.cycles@.last().cycle_type@ == phase_label(self.phase)
        &&& next.cycles@.last().duration == duration
        &&& next.same_settings(self)
        &&& next.phase == self.phase
        &&& next.current_cycle == self.current_cycle
        &&& next.completed_cycles == self.completed_cycles
    }

    /// A timer at the start of the first work phase, with nothing recorded.
    pub fn new(
        work_duration: u64,
        break_duration: u64,
        long_break_duration: u64,
        cycles_target: u32,
    ) -> (t: PomodoroTimer)
        ensures
            t.work_duration == work_duration,
            t.break_duration == break_duration,
            t.long_break_duration == long_break_duration,
            t.cycles_target == cycles_target,
            t.current_cycle == 0,
            t.phase == PomodoroPhase::Work,
            t.cycles@.len() == 0,
            t.completed_cycles == 0,
    {
        PomodoroTimer {
            work_duration,
            break_duration,
            long_break_duration,
            cycles_target,
            current_cycle: 0,
            phase: PomodoroPhase::Work,
            cycles: Vec::new(),
            completed_cycles: 0,
        }
    }

    pub fn completed_cycles(&self) -> (r: u32)
        ensures
            r == self.completed_cycles,
    {
        self.completed_cycles
    }

    /// The length of the current phase.
    pub fn get_current_duration(&self) -> (r: u64)
        ensures
            r == self.duration_of(self.phase),
    {
        match self.phase {
            PomodoroPhase::Work => self.work_duration,
            PomodoroPhase::LongBreak => self.long_break_duration,
            PomodoroPhase::Break => self.break_duration,
        }
    }

    /// Advance to the next phase, and return it.
    pub fn advance_phase(&mut self) -> (r: PomodoroPhase)
        requires
            old(self).phase == PomodoroPhase::Work ==> old(self).current_cycle < u32::MAX
                && old(self).completed_cycles < u32::MAX,
        ensures
            old(self).advanced_to(final(self)),
            r == final(self).phase,
    {
        match self.phase {
            PomodoroPhase::Work => {
                self.current_cycle = self.current_cycle + 1;
                self.completed_cycles = self.completed_cycles + 1;
                if self.current_cycle >= self.cycles_target {
                    self.phase = PomodoroPhase::LongBreak;
                    self.current_cycle = 0;
                } else {
                    self.phase = PomodoroPhase::Break;
                }
            },
            PomodoroPhase::Break | PomodoroPhase::LongBreak => {
                self.phase = PomodoroPhase::Work;
            },
        }
        self.phase
    }

    /// Record a completed segment of the current phase, `duration`
    /// milliseconds long.
    pub fn record_cycle(&mut self, duration: u64)
        ensures
            old(self).recorded_to(final(self), duration),
    {
        let cycle_type = match self.phase {
            PomodoroPhase::Work => String::from_str("work"),
            PomodoroPhase::Break => String::from_str("break"),
            PomodoroPhase::LongBreak => String::from_str("long_break"),
        };
        self.cycles.push(PomodoroCycle { cycle: self.completed_cycles, cycle_type, duration });
    }

    /// Whether the full session is complete: the target number of work
    /// cycles has been reached and a short break has begun.
    pub fn is_complete(&self) -> (r: bool)
        ensures
            r == (self.completed_cycles >= self.cycles_target && self.phase
                == PomodoroPhase::Break),
    {
        self.completed_cycles >= self.cycles_target && self.phase == PomodoroPhase::Break
    }
}

/// The position within the current round agrees with the number of completed
/// work cycles: it is that number modulo the round's length.
pub open spec fn round_consistent(current: u32, completed: u32, target: u32) -> bool {
    if target == 0 {
        current == 0
    } else {
        current as int == completed as int % target as int
    }
}

/// A fresh timer's position agrees with its count of completed cycles.
pub proof fn law_new_round_consistent(target: u32)
    ensures
        round_consistent(0, 0, target),
{
}

/// Advancing keeps the position consistent with the count of completed work
/// cycles, and a work phase ends in a long break exactly when the count of
/// completed work cycles becomes a multiple of the round's length.
pub proof fn law_long_break_every_round(phase: PomodoroPhase, current: u32, completed: u32, target: u32)
    requires
        round_consistent(current, completed, target),
        completed < u32::MAX,
    ensures
        round_consistent(
            pomodoro_advanced(phase, current, completed, target).1,
            pomodoro_advanced(phase, current, completed, target).2,
            target,
        ),
        phase == PomodoroPhase::Work ==> ((pomodoro_advanced(phase, current, completed, target).0
            == PomodoroPhase::LongBreak) <==> (target == 0 || (completed as int + 1) % (target as int)
            == 0)),
{
    if target > 0 && phase == PomodoroPhase::Work {
        let t = target as int;
        let c = completed as int;
        vstd::arithmetic::div_mod::lemma_mod_bound(c, t);
        vstd::arithmetic::div_mod::lemma_fundamental_div_mod(c, t);
        let q = c / t;
        if current as int + 1 < t {
            assert((c + 1) % t == current as int + 1) by {
                assert(q * t == t * q) by (nonlinear_arith);
                vstd::arithmetic::div_mod::lemma_fundamental_div_mod_converse(c + 1, t, q, current as int + 1);
            }
        } else {
            assert((c + 1) % t == 0) by {
                assert((q + 1) * t == q * t + t) by (nonlinear_arith);
                vstd::arithmetic::div_mod::lemma_fundamental_div_mod_converse(c + 1, t, q + 1, 0);
            }
        }
    }
}

/// Work and breaks alternate: a break always ends in work, and work always
/// ends in a break; only work phases count as completed cycles.
pub proof fn law_phases_alternate(phase: PomodoroPhase, current: u32, completed: u32, target: u32)
    requires
        completed < u32::MAX,
    ensures
        phase != PomodoroPhase::Work ==> pomodoro_advanced(phase, current, completed, target)
            == (PomodoroPhase::Work, current, completed),
        phase == PomodoroPhase::Work ==> pomodoro_advanced(phase, current, completed, target).0
            != PomodoroPhase::Work && pomodoro_advanced(phase, current, completed, target).2
            == completed + 1,
{
}

} // verus!
