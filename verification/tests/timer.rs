use anchor::timer::{Phase, PhaseTransition, Profile, ProfileKind, TimerState};

fn classic_profile() -> Profile {
    Profile {
        kind: ProfileKind::Classic,
        work_secs: 3,
        short_break_secs: 2,
        long_break_secs: 4,
        cycles_before_long: 2,
    }
}

fn no_long_profile() -> Profile {
    Profile {
        kind: ProfileKind::NoLongBreak,
        work_secs: 5,
        short_break_secs: 1,
        long_break_secs: 0,
        cycles_before_long: 0,
    }
}

#[test]
fn timer_counts_down() {
    let mut t = TimerState::new();
    t.reset(&classic_profile());
    t.running = true;
    t.update(1, &classic_profile());
    assert_eq!(t.remaining_secs, 2);
}

#[test]
fn work_ends_and_transitions() {
    let mut t = TimerState::new();
    t.reset(&classic_profile());
    t.running = true;
    let result = t.update(10, &classic_profile());
    assert_eq!(result, Some(PhaseTransition::WorkEnded));
}

#[test]
fn advance_phase_work_to_short_break() {
    let p = classic_profile();
    let mut t = TimerState::new();
    t.reset(&p);
    t.update(10, &p);
    t.advance_phase(&p);
    assert_eq!(t.phase, Phase::ShortBreak);
    assert!(t.running);
}

#[test]
fn cycle_resets_after_long_break() {
    let p = classic_profile();
    let mut t = TimerState::new();
    t.reset(&p);
    t.running = true;

    t.update(10, &p);
    t.advance_phase(&p);
    t.update(10, &p);
    t.advance_phase(&p);
    t.update(10, &p);
    t.advance_phase(&p);

    assert_eq!(t.phase, Phase::LongBreak);

    t.update(10, &p);
    t.advance_phase(&p);
    assert_eq!(t.cycle_count, 0);
    assert!(!t.running);
}

#[test]
fn new_timer_is_idle_work() {
    let t = TimerState::new();
    assert_eq!(t.phase, Phase::Work);
    assert_eq!(t.remaining_secs, 0);
    assert!(!t.running);
    assert_eq!(t.cycle_count, 0);
}

#[test]
fn paused_timer_does_not_move() {
    let p = classic_profile();
    let mut t = TimerState::new();
    t.reset(&p);
    assert_eq!(t.update(100, &p), None);
    assert_eq!(t.remaining_secs, 3);
    assert_eq!(t.phase, Phase::Work);
    assert!(!t.running);
}

#[test]
fn countdown_adds_up() {
    let p = Profile { work_secs: 100, ..classic_profile() };
    let mut a = TimerState::new();
    a.reset(&p);
    a.start();
    let mut b = TimerState::new();
    b.reset(&p);
    b.start();
    assert_eq!(a.update(30, &p), None);
    assert_eq!(a.update(45, &p), None);
    assert_eq!(b.update(75, &p), None);
    assert_eq!(a.remaining_secs, 25);
    assert_eq!(b.remaining_secs, 25);
    assert_eq!(a.update(25, &p), Some(PhaseTransition::WorkEnded));
    assert_eq!(a.remaining_secs, 0);
    assert!(!a.running);
}

#[test]
fn every_phase_reports_its_own_end() {
    let p = classic_profile();
    let mut t = TimerState::new();
    t.phase = Phase::ShortBreak;
    t.remaining_secs = 1;
    t.running = true;
    assert_eq!(t.update(1, &p), Some(PhaseTransition::ShortBreakEnded));
    t.phase = Phase::LongBreak;
    t.remaining_secs = 1;
    t.running = true;
    assert_eq!(t.update(5, &p), Some(PhaseTransition::LongBreakEnded));
}

#[test]
fn classic_cycle_follows_the_schedule() {
    let p = classic_profile();
    let mut t = TimerState::new();
    t.reset(&p);
    let expected = [
        (Phase::ShortBreak, 2, true, 1),
        (Phase::Work, 3, true, 1),
        (Phase::LongBreak, 4, true, 2),
        (Phase::Work, 3, false, 0),
        (Phase::ShortBreak, 2, true, 1),
    ];
    for (phase, remaining, running, count) in expected {
        t.advance_phase(&p);
        assert_eq!(t.phase, phase);
        assert_eq!(t.remaining_secs, remaining);
        assert_eq!(t.running, running);
        assert_eq!(t.cycle_count, count);
    }
}

#[test]
fn classic_with_zero_spacing_takes_a_long_break_every_time() {
    let p = Profile { cycles_before_long: 0, ..classic_profile() };
    let mut t = TimerState::new();
    t.reset(&p);
    t.advance_phase(&p);
    assert_eq!(t.phase, Phase::LongBreak);
    assert_eq!(t.cycle_count, 1);
    t.advance_phase(&p);
    assert_eq!(t.phase, Phase::Work);
    assert_eq!(t.cycle_count, 0);
    assert!(!t.running);
}

#[test]
fn no_long_break_alternates_and_waits_after_break() {
    let p = no_long_profile();
    let mut t = TimerState::new();
    t.reset(&p);
    for _ in 0..3 {
        t.advance_phase(&p);
        assert_eq!(t.phase, Phase::ShortBreak);
        assert_eq!(t.remaining_secs, 1);
        assert!(t.running);
        assert_eq!(t.cycle_count, 1);
        t.advance_phase(&p);
        assert_eq!(t.phase, Phase::Work);
        assert_eq!(t.remaining_secs, 5);
        assert!(!t.running);
        assert_eq!(t.cycle_count, 0);
    }
}

#[test]
fn skip_moves_on_paused() {
    let p = classic_profile();
    let mut t = TimerState::new();
    t.reset(&p);
    t.start();
    t.skip(&p);
    assert_eq!(t.phase, Phase::ShortBreak);
    assert_eq!(t.remaining_secs, 2);
    assert!(!t.running);
    assert_eq!(t.cycle_count, 1);
    t.skip(&p);
    t.skip(&p);
    assert_eq!(t.phase, Phase::LongBreak);
    assert_eq!(t.cycle_count, 2);
    t.skip(&p);
    assert_eq!(t.phase, Phase::Work);
    assert_eq!(t.cycle_count, 0);
    assert_eq!(t.remaining_secs, 3);
}

#[test]
fn skip_of_short_break_keeps_count_without_long_breaks() {
    let p = no_long_profile();
    let mut t = TimerState::new();
    t.reset(&p);
    t.skip(&p);
    assert_eq!(t.cycle_count, 1);
    t.skip(&p);
    assert_eq!(t.phase, Phase::Work);
    assert_eq!(t.cycle_count, 1);
    t.skip(&p);
    assert_eq!(t.phase, Phase::ShortBreak);
    assert_eq!(t.cycle_count, 2);
}

#[test]
fn reset_starts_over() {
    let p = classic_profile();
    let mut t = TimerState::new();
    t.reset(&p);
    t.start();
    t.skip(&p);
    t.start();
    t.update(1, &p);
    t.reset(&p);
    assert_eq!(t.phase, Phase::Work);
    assert_eq!(t.remaining_secs, 3);
    assert!(!t.running);
    assert_eq!(t.cycle_count, 0);
}

#[test]
fn start_and_pause_toggle_only_running() {
    let p = classic_profile();
    let mut t = TimerState::new();
    t.reset(&p);
    t.start();
    assert!(t.running);
    t.pause();
    assert!(!t.running);
    assert_eq!(t.remaining_secs, 3);
    assert_eq!(t.phase, Phase::Work);
}

#[test]
fn next_phase_rules() {
    let p = classic_profile();
    assert_eq!(TimerState::next_phase(Phase::Work, 1, &p), Phase::ShortBreak);
    assert_eq!(TimerState::next_phase(Phase::Work, 2, &p), Phase::LongBreak);
    assert_eq!(TimerState::next_phase(Phase::Work, 7, &p), Phase::LongBreak);
    assert_eq!(TimerState::next_phase(Phase::ShortBreak, 1, &p), Phase::Work);
    assert_eq!(TimerState::next_phase(Phase::LongBreak, 2, &p), Phase::Work);
    let q = no_long_profile();
    assert_eq!(TimerState::next_phase(Phase::Work, 100, &q), Phase::ShortBreak);
}

#[test]
fn counter_room() {
    let p = classic_profile();
    let q = no_long_profile();
    let mut t = TimerState::new();
    assert!(t.counter_has_room(&p));
    t.cycle_count = u32::MAX;
    assert!(!t.counter_has_room(&p));
    t.phase = Phase::ShortBreak;
    assert!(!t.counter_has_room(&p));
    assert!(t.counter_has_room(&q));
    t.phase = Phase::LongBreak;
    assert!(t.counter_has_room(&p));
}

#[test]
fn restart_phase_keeps_phase_and_count() {
    let p = classic_profile();
    let mut t = TimerState::new();
    t.reset(&p);
    t.skip(&p);
    t.start();
    t.update(1, &p);
    assert_eq!(t.remaining_secs, 1);
    t.restart_phase(&p);
    assert_eq!(t.phase, Phase::ShortBreak);
    assert_eq!(t.remaining_secs, 2);
    assert_eq!(t.cycle_count, 1);
    assert!(!t.running);
}
