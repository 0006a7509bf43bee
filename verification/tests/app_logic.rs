use anchor::app::{tick, window_size_from_config, WindowSize};
use anchor::audio::{sound_for_transition, SoundEvent};
use anchor::config;
use anchor::timer::{Phase, PhaseTransition, Profile, ProfileKind, TimerState};

fn profile() -> Profile {
    Profile {
        kind: ProfileKind::Classic,
        work_secs: 3,
        short_break_secs: 2,
        long_break_secs: 4,
        cycles_before_long: 2,
    }
}

#[test]
fn tick_counts_down_without_ending() {
    let p = profile();
    let mut t = TimerState::new();
    t.reset(&p);
    t.start();
    let ended = tick(&mut t, &p, 2);
    assert!(ended.is_empty());
    assert_eq!(t.remaining_secs, 1);
    assert_eq!(t.phase, Phase::Work);
}

#[test]
fn tick_moves_through_phases() {
    let p = profile();
    let mut t = TimerState::new();
    t.reset(&p);
    t.start();
    // 3 s of work, 2 s of short break, 3 s of work, then the long break runs.
    let ended = tick(&mut t, &p, 9);
    assert_eq!(
        ended,
        vec![
            PhaseTransition::WorkEnded,
            PhaseTransition::ShortBreakEnded,
            PhaseTransition::WorkEnded
        ]
    );
    assert_eq!(t.phase, Phase::LongBreak);
    assert_eq!(t.remaining_secs, 3);
    assert!(t.running);
    let ended = tick(&mut t, &p, 10);
    assert_eq!(ended, vec![PhaseTransition::LongBreakEnded]);
    assert_eq!(t.phase, Phase::Work);
    assert_eq!(t.remaining_secs, 3);
    assert!(!t.running);
    assert_eq!(t.cycle_count, 0);
}

#[test]
fn tick_adds_up() {
    let p = profile();
    let mut a = TimerState::new();
    a.reset(&p);
    a.start();
    let mut b = TimerState::new();
    b.reset(&p);
    b.start();
    let mut first = tick(&mut a, &p, 4);
    first.extend(tick(&mut a, &p, 3));
    let whole = tick(&mut b, &p, 7);
    assert_eq!(first, whole);
    assert_eq!(a.phase, b.phase);
    assert_eq!(a.remaining_secs, b.remaining_secs);
    assert_eq!(a.running, b.running);
    assert_eq!(a.cycle_count, b.cycle_count);
}

#[test]
fn tick_on_paused_timer_does_nothing() {
    let p = profile();
    let mut t = TimerState::new();
    t.reset(&p);
    assert!(tick(&mut t, &p, 50).is_empty());
    assert_eq!(t.remaining_secs, 3);
    assert!(tick(&mut t, &p, 0).is_empty());
}

#[test]
fn window_sizes_map_one_to_one() {
    assert_eq!(window_size_from_config(&config::WindowSize::S), WindowSize::S);
    assert_eq!(window_size_from_config(&config::WindowSize::M), WindowSize::M);
    assert_eq!(window_size_from_config(&config::WindowSize::L), WindowSize::L);
}

#[test]
fn sounds_follow_the_ended_phase() {
    assert_eq!(
        sound_for_transition(PhaseTransition::WorkEnded, true),
        Some(SoundEvent::WorkEnd)
    );
    assert_eq!(
        sound_for_transition(PhaseTransition::ShortBreakEnded, true),
        Some(SoundEvent::ShortBreakEnd)
    );
    assert_eq!(
        sound_for_transition(PhaseTransition::LongBreakEnded, true),
        Some(SoundEvent::LongBreakEnd)
    );
    assert_eq!(sound_for_transition(PhaseTransition::WorkEnded, false), None);
}
