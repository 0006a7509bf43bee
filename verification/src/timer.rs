//! The Pomodoro countdown and the cycle of work and break phases.
use vstd::prelude::*;

verus! {

/// The phase the timer is in.
#[derive(Debug, Clone, Copy, PartialEq, Eq, Structural)]
pub enum Phase {
    Work,
    ShortBreak,
    LongBreak,
}

/// What a countdown reports when it reaches zero: which phase has just ended.
#[derive(Debug, Clone, Copy, PartialEq, Eq, Structural)]
pub enum PhaseTransition {
    WorkEnded,
    ShortBreakEnded,
    LongBreakEnded,
}

/// The two cycle shapes: with a long break every few work phases, or without.
#[derive(Debug, Clone, Copy, PartialEq, Eq, Structural)]
pub enum ProfileKind {
    Classic,
    NoLongBreak,
}

/// The durations (in seconds) of the phases of a cycle, and how many work
/// phases come before a long break.
#[derive(Debug, Clone)]
pub struct Profile {
    pub kind: ProfileKind,
    pub work_secs: u64,
    pub short_break_secs: u64,
    pub long_break_secs: u64,
    pub cycles_before_long: u32,
}

/// The state of the timer: the current phase, the seconds left in it, whether
/// it is counting down, and how many work phases the current cycle has seen.
pub struct TimerState {
    pub phase: Phase,
    pub remaining_secs: u64,
    pub running: bool,
    pub cycle_count: u32,
}

/// The report that a countdown gives when `phase` reaches zero.
pub open spec fn ended(phase: Phase) -> PhaseTransition {
    match phase {
        Phase::Work => PhaseTransition::WorkEnded,
        Phase::ShortBreak => PhaseTransition::ShortBreakEnded,
        Phase::LongBreak => PhaseTransition::LongBreakEnded,
    }
}

/// How long `phase` lasts under `profile`.
pub open spec fn duration(phase: Phase, profile: Profile) -> u64 {
    match phase {
        Phase::Work => profile.work_secs,
        Phase::ShortBreak => profile.short_break_secs,
        Phase::LongBreak => profile.long_break_secs,
    }
}

/// The phase that follows `current`, given the number of work phases of the
/// cycle so far: a work phase is followed by a long break in a classic profile
/// once that number reaches `cycles_before_long`, and by a short break
/// otherwise; a break is followed by work.
pub open spec fn phase_after(current: Phase, cycle_count: u32, profile: Profile) -> Phase {
    match current {
        Phase::Work => if profile.kind == ProfileKind::Classic && cycle_count
            >= profile.cycles_before_long {
            Phase::LongBreak
        } else {
            Phase::ShortBreak
        },
        Phase::ShortBreak | Phase::LongBreak => Phase::Work,
    }
}

/// The state in which the cycle starts over: work, its full duration, paused.
pub open spec fn fresh_state(profile: Profile) -> TimerState {
    TimerState { phase: Phase::Work, remaining_secs: profile.work_secs, running: false, cycle_count: 0 }
}

/// The number of work phases before a long break, where a spacing of zero
/// behaves as one: a long break then follows every work phase.
pub open spec fn long_break_spacing(profile: Profile) -> int {
    if profile.cycles_before_long == 0 {
        1
    } else {
        profile.cycles_before_long as int
    }
}

impl TimerState {
    /// The state after `dt` seconds have passed.
    pub open spec fn updated(self, dt: u64) -> TimerState {
        if !self.running {
            self
        } else if self.remaining_secs > dt {
            TimerState {
                phase: self.phase,
                remaining_secs: (self.remaining_secs - dt) as u64,
                running: true,
                cycle_count: self.cycle_count,
            }
        } else {
            TimerState {
                phase: self.phase,
                remaining_secs: 0,
                running: false,
                cycle_count: self.cycle_count,
            }
        }
    }

    /// What a countdown of `dt` seconds reports: the end of the phase exactly
    /// when a running timer has no more than `dt` seconds left.
    pub open spec fn update_result(self, dt: u64) -> Option<PhaseTransition> {
        if self.running && self.remaining_secs <= dt {
            Some(ended(self.phase))
        } else {
            None
        }
    }

    /// Whether leaving the current phase completes a cycle: a long break, or a
    /// short break in a profile without long breaks.
    pub open spec fn ends_cycle(self, profile: Profile) -> bool {
        ||| self.phase == Phase::LongBreak
        ||| (self.phase == Phase::ShortBreak && profile.kind == ProfileKind::NoLongBreak)
    }

    /// The number of work phases of the cycle once the timer has moved on.
    pub open spec fn count_after_advance(self, profile: Profile) -> u32 {
        if self.phase == Phase::Work {
            (self.cycle_count + 1) as u32
        } else if self.ends_cycle(profile) {
            0
        } else {
            self.cycle_count
        }
    }

    /// The state after the timer moves on to the next phase when one ends:
    /// the next phase starts at its full duration and runs, unless a cycle has
    /// just been completed.
    pub open spec fn advanced(self, profile: Profile) -> TimerState {
        let count = self.count_after_advance(profile);
        let phase = phase_after(self.phase, count, profile);
        TimerState {
            phase,
            remaining_secs: duration(phase, profile),
            running: !self.ends_cycle(profile),
            cycle_count: count,
        }
    }

    /// The number of work phases of the cycle once the user skips the phase:
    /// a skipped work phase counts, and only a skipped long break starts over.
    pub open spec fn count_after_skip(self) -> u32 {
        if self.phase == Phase::Work {
            (self.cycle_count + 1) as u32
        } else if self.phase == Phase::LongBreak {
            0
        } else {
            self.cycle_count
        }
    }

    /// The state after the user skips the current phase: the next phase at its
    /// full duration, paused.
    pub open spec fn skipped(self, profile: Profile) -> TimerState {
        let count = self.count_after_skip();
        let phase = phase_after(self.phase, count, profile);
        TimerState {
            phase,
            remaining_secs: duration(phase, profile),
            running: false,
            cycle_count: count,
        }
    }

    /// The state once the countdown is started: only `running` changes.
    pub open spec fn started(self) -> TimerState {
        TimerState {
            phase: self.phase,
            remaining_secs: self.remaining_secs,
            running: true,
            cycle_count: self.cycle_count,
        }
    }

    /// The state once the countdown is paused: only `running` changes.
    pub open spec fn paused(self) -> TimerState {
        TimerState {
            phase: self.phase,
            remaining_secs: self.remaining_secs,
            running: false,
            cycle_count: self.cycle_count,
        }
    }

    /// The state once the current phase is restarted: the same phase and
    /// count, back at its full duration, paused.
    pub open spec fn restarted(self, profile: Profile) -> TimerState {
        TimerState {
            phase: self.phase,
            remaining_secs: duration(self.phase, profile),
            running: false,
            cycle_count: self.cycle_count,
        }
    }

    /// Whether counting one more work phase fits in the counter.
    pub open spec fn can_count(self) -> bool {
        self.phase == Phase::Work ==> self.cycle_count < u32::MAX
    }

    /// The consistency of the state with `profile`: no more time left than the
    /// phase lasts; in a classic profile, the count of work phases matches the
    /// phase (below the spacing during work, between one and the spacing
    /// during a short break, equal to it during the long break); and no long
    /// break in a profile without one.
    pub open spec fn well_formed(self, profile: Profile) -> bool {
        &&& self.remaining_secs <= duration(self.phase, profile)
        &&& profile.kind == ProfileKind::Classic ==> match self.phase {
            Phase::Work => self.cycle_count < long_break_spacing(profile),
            Phase::ShortBreak => 1 <= self.cycle_count < long_break_spacing(profile),
            Phase::LongBreak => self.cycle_count == long_break_spacing(profile),
        }
        &&& profile.kind == ProfileKind::NoLongBreak ==> self.phase != Phase::LongBreak
    }

    /// Whether the count of work phases can grow by one more before it is
    /// next started over: during work, and during a short break of a classic
    /// profile (which leads back to work with the same count).
    pub open spec fn counter_fits(self, profile: Profile) -> bool {
        (self.phase == Phase::Work || (self.phase == Phase::ShortBreak && profile.kind
            == ProfileKind::Classic)) ==> self.cycle_count < u32::MAX
    }

    /// Whether the count of work phases has room for the phases to come (see
    /// `counter_fits`).
    pub fn counter_has_room(&self, profile: &Profile) -> (r: bool)
        ensures
            r == self.counter_fits(*profile),
    {
        match self.phase {
            Phase::Work => self.cycle_count < u32::MAX,
            Phase::ShortBreak => match profile.kind {
                ProfileKind::Classic => self.cycle_count < u32::MAX,
                ProfileKind::NoLongBreak => true,
            },
            Phase::LongBreak => true,
        }
    }

    /// Whether counting one more work phase fits in the counter (see
    /// `can_count`), as moving on from a work phase requires.
    pub fn has_room_for_work_phase(&self) -> (r: bool)
        ensures
            r == self.can_count(),
    {
        match self.phase {
            Phase::Work => self.cycle_count < u32::MAX,
            Phase::ShortBreak | Phase::LongBreak => true,
        }
    }

    /// A timer that has not been set up for any profile: work, nothing left,
    /// paused, no work phase counted.
    pub fn new() -> (s: Self)
        ensures
            s.phase == Phase::Work,
            s.remaining_secs == 0,
            !s.running,
            s.cycle_count == 0,
    {
        Self { phase: Phase::Work, remaining_secs: 0, running: false, cycle_count: 0 }
    }

    /// Lets `dt_secs` seconds pass. A paused timer does not change. A running
    /// timer counts down; when it reaches zero it stops and reports which
    /// phase has ended.
    #[allow(unused_variables)]
    pub fn update(&mut self, dt_secs: u64, profile: &Profile) -> (r: Option<PhaseTransition>)
        ensures
            *final(self) == old(self).updated(dt_secs),
            r == old(self).update_result(dt_secs),
    {
        if !self.running {
            return None;
        }
        if self.remaining_secs > dt_secs {
            self.remaining_secs -= dt_secs;
            None
        } else {
            self.remaining_secs = 0;
            self.running = false;
            match self.phase {
                Phase::Work => Some(PhaseTransition::WorkEnded),
                Phase::ShortBreak => Some(PhaseTransition::ShortBreakEnded),
                Phase::LongBreak => Some(PhaseTransition::LongBreakEnded),
            }
        }
    }

    /// Moves on to the next phase after one has ended: counts a finished work
    /// phase, starts the count over after a completed cycle, and starts the
    /// next phase at its full duration. The next phase runs by itself, except
    /// after a completed cycle, when the timer waits for the user.
    pub fn advance_phase(&mut self, profile: &Profile)
        requires
            old(self).can_count(),
        ensures
            *final(self) == old(self).advanced(*profile),
    {
        let is_long_break = self.phase == Phase::LongBreak;
        let is_short_break_no_long = self.phase == Phase::ShortBreak && profile.kind
            == ProfileKind::NoLongBreak;

        if self.phase == Phase::Work {
            self.cycle_count += 1;
        } else if is_long_break || is_short_break_no_long {
            self.cycle_count = 0;
        }
        self.phase = Self::next_phase(self.phase, self.cycle_count, profile);
        self.remaining_secs = self.phase_duration(self.phase, profile);

        if is_long_break || is_short_break_no_long {
            self.running = false;
        } else {
            self.running = true;
        }
    }

    /// Starts (or resumes) the countdown.
    pub fn start(&mut self)
        ensures
            *final(self) == old(self).started(),
    {
        self.running = true;
    }

    /// Pauses the countdown.
    pub fn pause(&mut self)
        ensures
            *final(self) == old(self).paused(),
    {
        self.running = false;
    }

    /// Starts the cycle over: work at its full duration, paused, no work phase
    /// counted.
    pub fn reset(&mut self, profile: &Profile)
        ensures
            *final(self) == fresh_state(*profile),
    {
        self.phase = Phase::Work;
        self.cycle_count = 0;
        self.remaining_secs = self.phase_duration(self.phase, profile);
        self.running = false;
    }

    /// Restarts the current phase: it goes back to its full duration and
    /// waits, paused; the phase and the count of work phases stay.
    pub fn restart_phase(&mut self, profile: &Profile)
        ensures
            *final(self) == old(self).restarted(*profile),
    {
        self.remaining_secs = self.phase_duration(self.phase, profile);
        self.running = false;
    }

    /// Skips to the next phase at the user's request: a skipped work phase
    /// counts as done, a skipped long break starts the count over, and the
    /// next phase waits, paused, at its full duration.
    pub fn skip(&mut self, profile: &Profile)
        requires
            old(self).can_count(),
        ensures
            *final(self) == old(self).skipped(*profile),
    {
        if self.phase == Phase::Work {
            self.cycle_count += 1;
        } else if self.phase == Phase::LongBreak {
            self.cycle_count = 0;
        }
        self.phase = Self::next_phase(self.phase, self.cycle_count, profile);
        self.remaining_secs = self.phase_duration(self.phase, profile);
        self.running = false;
    }

    /// The phase that follows `current` when `cycle_count` work phases of the
    /// cycle are done.
    pub fn next_phase(current: Phase, cycle_count: u32, profile: &Profile) -> (r: Phase)
        ensures
            r == phase_after(current, cycle_count, *profile),
    {
        match current {
            Phase::Work => {
                if profile.kind == ProfileKind::Classic && cycle_count >= profile.cycles_before_long {
                    Phase::LongBreak
                } else {
                    Phase::ShortBreak
                }
            },
            Phase::ShortBreak | Phase::LongBreak => Phase::Work,
        }
    }

    fn phase_duration(&self, phase: Phase, profile: &Profile) -> (r: u64)
        ensures
            r == duration(phase, *profile),
    {
        match phase {
            Phase::Work => profile.work_secs,
            Phase::ShortBreak => profile.short_break_secs,
            Phase::LongBreak => profile.long_break_secs,
        }
    }
}

} // verus!
