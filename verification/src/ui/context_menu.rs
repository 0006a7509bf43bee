//! What the entries of the window's menu do to the timer and the profile.
use vstd::prelude::*;

use crate::timer::{fresh_state, Profile, ProfileKind, TimerState};

verus! {

/// The menu entries that act on the timer or the profile.
#[derive(Debug, Clone, Copy, PartialEq, Eq, Structural)]
pub enum MenuAction {
    /// Pauses a running timer, starts a paused one.
    StartPause,
    /// Restarts the current phase.
    Restart,
    /// Skips the current phase.
    SkipPhase,
    /// Switches to the built-in profile of the given kind.
    SwitchProfile(ProfileKind),
}

/// The built-in profile of each kind: 25 minutes of work and 5 of short break,
/// with a 15-minute long break after every fourth work phase for the classic
/// one and no long break for the other.
pub open spec fn preset(kind: ProfileKind) -> Profile {
    match kind {
        ProfileKind::Classic => Profile {
            kind: ProfileKind::Classic,
            work_secs: 1500,
            short_break_secs: 300,
            long_break_secs: 900,
            cycles_before_long: 4,
        },
        ProfileKind::NoLongBreak => Profile {
            kind: ProfileKind::NoLongBreak,
            work_secs: 1500,
            short_break_secs: 300,
            long_break_secs: 0,
            cycles_before_long: 0,
        },
    }
}

/// The built-in profile of `kind`.
pub fn preset_profile(kind: ProfileKind) -> (p: Profile)
    ensures
        p == preset(kind),
{
    match kind {
        ProfileKind::Classic => Profile {
            kind: ProfileKind::Classic,
            work_secs: 25 * 60,
            short_break_secs: 5 * 60,
            long_break_secs: 15 * 60,
            cycles_before_long: 4,
        },
        ProfileKind::NoLongBreak => Profile {
            kind: ProfileKind::NoLongBreak,
            work_secs: 25 * 60,
            short_break_secs: 5 * 60,
            long_break_secs: 0,
            cycles_before_long: 0,
        },
    }
}

/// The label of the start/pause entry: what choosing it would do.
pub fn run_label(running: bool) -> (r: &'static str)
    ensures
        r@ == (if running {
            "Pause"@
        } else {
            "Start"@
        }),
{
    if running {
        "Pause"
    } else {
        "Start"
    }
}

/// Carries out a menu entry on the timer and the active profile.
pub fn apply_menu_action(timer: &mut TimerState, profile: &mut Profile, action: MenuAction)
    requires
        action == MenuAction::SkipPhase ==> old(timer).can_count(),
    ensures
        match action {
            MenuAction::StartPause => {
                &&& *final(timer) == (if old(timer).running {
                    old(timer).paused()
                } else {
                    old(timer).started()
                })
                &&& *final(profile) == *old(profile)
            },
            MenuAction::Restart => {
                &&& *final(timer) == old(timer).restarted(*old(profile))
                &&& *final(profile) == *old(profile)
            },
            MenuAction::SkipPhase => {
                &&& *final(timer) == old(timer).skipped(*old(profile))
                &&& *final(profile) == *old(profile)
            },
            MenuAction::SwitchProfile(kind) => {
                &&& *final(profile) == preset(kind)
                &&& *final(timer) == fresh_state(preset(kind))
            },
        },
{
    match action {
        MenuAction::StartPause => {
            if timer.running {
                timer.pause();
            } else {
                timer.start();
            }
        },
        MenuAction::Restart => {
            timer.restart_phase(profile);
        },
        MenuAction::SkipPhase => {
            timer.skip(profile);
        },
        MenuAction::SwitchProfile(kind) => {
            *profile = preset_profile(kind);
            timer.reset(profile);
        },
    }
}

} // verus!
