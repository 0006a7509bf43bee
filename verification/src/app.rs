//! What the application decides each frame: how much of the countdown has
//! passed, which phases ended on the way, and the window size to show.
use vstd::prelude::*;

use crate::config;
use crate::timer::{PhaseTransition, Profile, TimerState};

verus! {

/// The size of the window.
#[derive(Debug, Clone, Copy, PartialEq, Eq, Structural)]
pub enum WindowSize {
    S,
    M,
    L,
}

/// The window size that a configured size stands for.
pub fn window_size_from_config(size: &config::WindowSize) -> (r: WindowSize)
    ensures
        r == match *size {
            config::WindowSize::S => WindowSize::S,
            config::WindowSize::M => WindowSize::M,
            config::WindowSize::L => WindowSize::L,
        },
{
    match size {
        config::WindowSize::S => WindowSize::S,
        config::WindowSize::M => WindowSize::M,
        config::WindowSize::L => WindowSize::L,
    }
}

/// One second of the clock: the countdown moves by a second and, when a phase
/// ends, the timer moves on to the next one. Gives the new state and the phase
/// that ended, if any.
pub open spec fn second_passed(s: TimerState, profile: Profile) -> (TimerState, Option<
    PhaseTransition,
>) {
    match s.update_result(1) {
        Some(t) => (s.updated(1).advanced(profile), Some(t)),
        None => (s.updated(1), None),
    }
}

/// `n` seconds of the clock, one after the other: the final state and the
/// phases that ended, in order.
pub open spec fn run_seconds(s: TimerState, profile: Profile, n: nat) -> (TimerState, Seq<
    PhaseTransition,
>)
    decreases n,
{
    if n == 0 {
        (s, Seq::empty())
    } else {
        let (prev, ended) = run_seconds(s, profile, (n - 1) as nat);
        let (next, t) = second_passed(prev, profile);
        (
            next,
            match t {
                Some(t) => ended.push(t),
                None => ended,
            },
        )
    }
}

/// Whether one second of the clock can move the timer on without its count of
/// work phases overflowing.
pub open spec fn second_fits(s: TimerState) -> bool {
    s.update_result(1) is Some ==> s.updated(1).can_count()
}

/// Whether every one of `n` seconds of the clock fits.
pub open spec fn run_fits(s: TimerState, profile: Profile, n: nat) -> bool
    decreases n,
{
    n == 0 || (run_fits(s, profile, (n - 1) as nat) && second_fits(
        run_seconds(s, profile, (n - 1) as nat).0,
    ))
}

/// A paused timer stays as it is however many seconds pass.
pub proof fn lemma_paused_run(s: TimerState, profile: Profile, n: nat)
    requires
        !s.running,
    ensures
        run_seconds(s, profile, n) == (s, Seq::<PhaseTransition>::empty()),
    decreases n,
{
    if n > 0 {
        lemma_paused_run(s, profile, (n - 1) as nat);
    }
}

/// Lets `elapsed_secs` seconds of the clock pass, one at a time: each second
/// counts down a running timer and, when a phase ends, moves the timer on to
/// the next phase. Returns the phases that ended, in order.
pub fn tick(timer: &mut TimerState, profile: &Profile, elapsed_secs: u64) -> (ended: Vec<
    PhaseTransition,
>)
    requires
        run_fits(*old(timer), *profile, elapsed_secs as nat),
    ensures
        (*final(timer), ended@) == run_seconds(*old(timer), *profile, elapsed_secs as nat),
{
    let mut ended: Vec<PhaseTransition> = Vec::new();
    if elapsed_secs >= 1 && timer.running {
        let ghost start = *timer;
        let mut i: u64 = 0;
        while i < elapsed_secs
            invariant
                i <= elapsed_secs,
                (*timer, ended@) == run_seconds(start, *profile, i as nat),
                run_fits(start, *profile, elapsed_secs as nat),
            decreases elapsed_secs - i,
        {
            proof {
                lemma_run_fits_prefix(start, *profile, elapsed_secs as nat, (i + 1) as nat);
            }
            if let Some(t) = timer.update(1, profile) {
                ended.push(t);
                timer.advance_phase(profile);
            }
            i += 1;
        }
    } else {
        proof {
            if elapsed_secs >= 1 {
                lemma_paused_run(*timer, *profile, elapsed_secs as nat);
            }
        }
    }
    ended
}

/// Fitting for `n` seconds means fitting for any shorter run.
pub proof fn lemma_run_fits_prefix(s: TimerState, profile: Profile, n: nat, m: nat)
    requires
        run_fits(s, profile, n),
        m <= n,
    ensures
        run_fits(s, profile, m),
    decreases n,
{
    if m < n {
        lemma_run_fits_prefix(s, profile, (n - 1) as nat, m);
    }
}

} // verus!
