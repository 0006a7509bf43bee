//! Properties of the timer that span several operations: how the countdown
//! adds up, the shape of a Pomodoro cycle under each profile, what every
//! operation keeps, and how the default profiles relate to the built-in ones.
use vstd::prelude::*;

use crate::audio::sound_of;
use crate::app::{lemma_paused_run, run_fits, run_seconds, second_fits};
use crate::config::{
    is_default_config, is_default_no_long_break_config, profile_from_config, ProfileConfig,
};
use crate::ui::timer_view::{clock_text, decimal, digit_char, shown_cycles, two_digits};
use crate::timer::{
    duration, ended, fresh_state, long_break_spacing, phase_after, Phase, PhaseTransition,
    Profile, ProfileKind, TimerState,
};
use crate::ui::context_menu::preset;

verus! {

/// `n` phase changes in a row, each made as when a phase ends.
pub open spec fn advance_times(s: TimerState, profile: Profile, n: nat) -> TimerState
    decreases n,
{
    if n == 0 {
        s
    } else {
        advance_times(s, profile, (n - 1) as nat).advanced(profile)
    }
}

/// The phase at position `k` of a classic cycle of `c` work phases: work at
/// the even positions, the long break at the last one, short breaks between.
pub open spec fn classic_phase_at(k: int, c: int) -> Phase {
    if k % 2 == 0 {
        Phase::Work
    } else if k == 2 * c - 1 {
        Phase::LongBreak
    } else {
        Phase::ShortBreak
    }
}

/// The state of a classic profile after `n` phase changes from a fresh start.
/// The cycle has `2 * c` positions, `c` the spacing of long breaks; at position
/// `k` the count of work phases is `(k + 1) / 2`, the phase starts at its full
/// duration, and the timer runs except at the start of a cycle.
pub open spec fn classic_state_at(profile: Profile, n: nat) -> TimerState {
    let c = long_break_spacing(profile);
    let k = n as int % (2 * c);
    let phase = classic_phase_at(k, c);
    TimerState {
        phase,
        remaining_secs: duration(phase, profile),
        running: k != 0,
        cycle_count: ((k + 1) / 2) as u32,
    }
}

/// The state of a profile without long breaks after `n` phase changes from a
/// fresh start: work and short break alternate, the count is one during the
/// break, and the timer runs during the break only.
pub open spec fn no_long_break_state_at(profile: Profile, n: nat) -> TimerState {
    let phase = if n % 2 == 0 {
        Phase::Work
    } else {
        Phase::ShortBreak
    };
    TimerState {
        phase,
        remaining_secs: duration(phase, profile),
        running: n % 2 == 1,
        cycle_count: (n % 2) as u32,
    }
}

proof fn lemma_next_position(n: int, m: int)
    requires
        n >= 0,
        m >= 2,
    ensures
        (n + 1) % m == (if n % m + 1 == m {
            0
        } else {
            n % m + 1
        }),
        0 <= n % m < m,
{
    vstd::arithmetic::div_mod::lemma_add_mod_noop(n, 1, m);
    vstd::arithmetic::div_mod::lemma_small_mod(1, m as nat);
    vstd::arithmetic::div_mod::lemma_mod_pos_bound(n, m);
    if n % m + 1 == m {
        vstd::arithmetic::div_mod::lemma_mod_self_0(m);
    } else {
        vstd::arithmetic::div_mod::lemma_small_mod((n % m + 1) as nat, m as nat);
    }
}

/// In a classic profile, starting fresh and letting each phase end, the phases
/// come in cycles of `c` work phases (`c` the spacing of long breaks): work
/// and short break alternate, the `c`-th work phase is followed by the long
/// break, and after the long break the cycle starts over with work, paused,
/// and a count of zero. Every phase starts at its full duration, and the count
/// of work phases never overflows.
pub proof fn classic_cycle_schedule(profile: Profile, n: nat)
    requires
        profile.kind == ProfileKind::Classic,
    ensures
        advance_times(fresh_state(profile), profile, n) == classic_state_at(profile, n),
        advance_times(fresh_state(profile), profile, n).can_count(),
    decreases n,
{
    let c = long_break_spacing(profile);
    let m = 2 * c;
    if n == 0 {
        vstd::arithmetic::div_mod::lemma_small_mod(0, m as nat);
    } else {
        classic_cycle_schedule(profile, (n - 1) as nat);
        lemma_next_position(n - 1, m);
        let k0 = (n - 1) as int % m;
        let k1 = n as int % m;
        assert(k1 == (if k0 + 1 == m {
            0
        } else {
            k0 + 1
        }));
    }
    let k = n as int % m;
    vstd::arithmetic::div_mod::lemma_mod_pos_bound(n as int, m);
    assert(0 <= (k + 1) / 2 <= c);
}

/// With a classic profile of `n >= 1` work phases per cycle, starting fresh,
/// the `i`-th phase change (counting from one, up to `2 * n`) leads to work
/// when `i` is even, to the long break when `i` is `2 * n - 1`, and to a short
/// break otherwise; after `2 * n` changes the timer is back where it started.
pub proof fn classic_cycle_returns_to_start(profile: Profile, i: nat)
    requires
        profile.kind == ProfileKind::Classic,
        profile.cycles_before_long >= 1,
        1 <= i <= 2 * profile.cycles_before_long,
    ensures
        i % 2 == 0 ==> advance_times(fresh_state(profile), profile, i).phase == Phase::Work,
        i % 2 == 1 && i < 2 * profile.cycles_before_long - 1 ==> advance_times(
            fresh_state(profile),
            profile,
            i,
        ).phase == Phase::ShortBreak,
        i == 2 * profile.cycles_before_long - 1 ==> advance_times(fresh_state(profile), profile, i).phase
            == Phase::LongBreak,
        i == 2 * profile.cycles_before_long ==> advance_times(fresh_state(profile), profile, i)
            == fresh_state(profile),
{
    let m = 2 * profile.cycles_before_long;
    classic_cycle_schedule(profile, i);
    if i < m {
        vstd::arithmetic::div_mod::lemma_small_mod(i, m as nat);
    } else {
        vstd::arithmetic::div_mod::lemma_mod_self_0(m as int);
    }
}

/// In a profile without long breaks, starting fresh and letting each phase
/// end, work and short break alternate forever; the timer moves from work to
/// the break by itself and waits for the user after each break.
pub proof fn no_long_break_schedule(profile: Profile, n: nat)
    requires
        profile.kind == ProfileKind::NoLongBreak,
    ensures
        advance_times(fresh_state(profile), profile, n) == no_long_break_state_at(profile, n),
        advance_times(fresh_state(profile), profile, n).can_count(),
    decreases n,
{
    if n > 0 {
        no_long_break_schedule(profile, (n - 1) as nat);
    }
}

/// A profile without long breaks never leads into a long break, whether a
/// phase ends or the user skips it.
pub proof fn no_long_break_never_long(s: TimerState, profile: Profile, count: u32, phase: Phase)
    requires
        profile.kind == ProfileKind::NoLongBreak,
    ensures
        phase_after(phase, count, profile) != Phase::LongBreak,
        s.advanced(profile).phase != Phase::LongBreak,
        s.skipped(profile).phase != Phase::LongBreak,
{
}

/// Every operation keeps the state consistent with the profile: a fresh
/// start and a new timer are consistent, counting down, starting, pausing,
/// moving on at the end of a phase and skipping a phase keep it so; and in a
/// classic profile a consistent state always has room to count one more work
/// phase.
pub proof fn operations_keep_well_formed(s: TimerState, profile: Profile, dt: u64)
    requires
        s.well_formed(profile),
    ensures
        fresh_state(profile).well_formed(profile),
        (TimerState { phase: Phase::Work, remaining_secs: 0, running: false, cycle_count: 0 })
            .well_formed(profile),
        s.updated(dt).well_formed(profile),
        s.started().well_formed(profile),
        s.paused().well_formed(profile),
        s.can_count() ==> s.advanced(profile).well_formed(profile),
        s.can_count() ==> s.skipped(profile).well_formed(profile),
        profile.kind == ProfileKind::Classic ==> s.can_count(),
{
}

/// A paused timer stands still: no time passes for it, and it reports no
/// phase end, however long the clock runs.
pub proof fn paused_timer_stands_still(s: TimerState, profile: Profile, dt: u64, n: nat)
    requires
        !s.running,
    ensures
        s.updated(dt) == s,
        s.update_result(dt) is None,
        run_seconds(s, profile, n) == (s, Seq::<PhaseTransition>::empty()),
{
    lemma_paused_run(s, profile, n);
}

/// The countdown adds up: while the first of two updates does not end the
/// phase, the two leave the timer as one update of their sum does, and report
/// the same.
pub proof fn countdown_is_additive(s: TimerState, a: u64, b: u64)
    requires
        s.running,
        s.remaining_secs > a,
        a + b <= u64::MAX,
    ensures
        s.update_result(a) is None,
        s.updated(a).updated(b) == s.updated((a + b) as u64),
        s.updated(a).update_result(b) == s.update_result((a + b) as u64),
{
}

/// Counting down never adds time, and never changes the phase or the count
/// of work phases.
pub proof fn countdown_never_adds_time(s: TimerState, dt: u64)
    ensures
        s.updated(dt).remaining_secs <= s.remaining_secs,
        s.updated(dt).phase == s.phase,
        s.updated(dt).cycle_count == s.cycle_count,
{
}

/// Starting and pausing only switch the countdown on and off: the last of
/// them decides, and pausing a running timer then starting it again gives it
/// back as it was.
pub proof fn start_and_pause(s: TimerState)
    ensures
        s.started().paused() == s.paused(),
        s.paused().started() == s.started(),
        s.started().started() == s.started(),
        s.paused().paused() == s.paused(),
        s.running ==> s.paused().started() == s,
        !s.running ==> s.started().paused() == s,
{
}

/// Skipping a phase moves to the phase that its end would have led to, at its
/// full duration, but paused. The count of work phases is the same as at the
/// end of the phase, except after a short break of a profile without long
/// breaks, which a skip does not count as the end of a cycle.
pub proof fn skip_is_paused_advance(s: TimerState, profile: Profile)
    ensures
        s.skipped(profile).phase == s.advanced(profile).phase,
        s.skipped(profile).remaining_secs == s.advanced(profile).remaining_secs,
        !s.skipped(profile).running,
        !(s.phase == Phase::ShortBreak && profile.kind == ProfileKind::NoLongBreak) ==> s.skipped(
            profile,
        ) == s.advanced(profile).paused(),
        (s.phase == Phase::ShortBreak && profile.kind == ProfileKind::NoLongBreak) ==> s.skipped(
            profile,
        ).cycle_count == s.cycle_count,
{
}

/// The clock adds up: `a` seconds then `b` seconds leave the timer as `a + b`
/// seconds do, and the phases that end are those of the first stretch
/// followed by those of the second. The same holds of whether the counter has
/// room all the way.
pub proof fn clock_is_additive(s: TimerState, profile: Profile, a: nat, b: nat)
    ensures
        run_seconds(s, profile, a + b) == (
            run_seconds(run_seconds(s, profile, a).0, profile, b).0,
            run_seconds(s, profile, a).1 + run_seconds(run_seconds(s, profile, a).0, profile, b).1,
        ),
        run_fits(s, profile, a + b) == (run_fits(s, profile, a) && run_fits(
            run_seconds(s, profile, a).0,
            profile,
            b,
        )),
    decreases b,
{
    let mid = run_seconds(s, profile, a);
    if b == 0 {
        assert(mid.1 + Seq::<PhaseTransition>::empty() =~= mid.1);
    } else {
        clock_is_additive(s, profile, a, (b - 1) as nat);
        assert((a + b - 1) as nat == a + (b - 1) as nat);
        let next = run_seconds(mid.0, profile, b);
        assert(run_seconds(s, profile, a + b).1 =~= mid.1 + next.1);
    }
}

/// While a running timer has more time left than the clock runs, the clock
/// only counts it down, and no phase ends.
pub proof fn clock_counts_down(s: TimerState, profile: Profile, n: nat)
    requires
        s.running,
        n < s.remaining_secs,
    ensures
        run_seconds(s, profile, n) == (
            TimerState {
                phase: s.phase,
                remaining_secs: (s.remaining_secs - n) as u64,
                running: true,
                cycle_count: s.cycle_count,
            },
            Seq::<PhaseTransition>::empty(),
        ),
    decreases n,
{
    if n > 0 {
        clock_counts_down(s, profile, (n - 1) as nat);
    }
}

/// A running phase ends after exactly the seconds it has left: the clock
/// then reports its end once, and the next phase begins at its full duration,
/// running by itself unless a cycle has just been completed.
pub proof fn phase_ends_on_time(s: TimerState, profile: Profile)
    requires
        s.running,
        s.remaining_secs >= 1,
    ensures
        run_seconds(s, profile, s.remaining_secs as nat) == (
            s.updated(s.remaining_secs).advanced(profile),
            seq![ended(s.phase)],
        ),
        run_seconds(s, profile, s.remaining_secs as nat).0.running == !s.ends_cycle(profile),
        run_seconds(s, profile, s.remaining_secs as nat).0.remaining_secs == duration(
            run_seconds(s, profile, s.remaining_secs as nat).0.phase,
            profile,
        ),
{
    let r = s.remaining_secs as nat;
    clock_counts_down(s, profile, (r - 1) as nat);
    clock_is_additive(s, profile, (r - 1) as nat, 1);
    assert((r - 1) as nat + 1 == r);
    assert(Seq::<PhaseTransition>::empty() + seq![ended(s.phase)] =~= seq![ended(s.phase)]);
}

/// From a state whose counter has room, the clock can run for any number of
/// seconds without the count of work phases overflowing, and the counter
/// still has room afterwards. A fresh start has room.
pub proof fn counter_room_lasts(s: TimerState, profile: Profile, n: nat)
    requires
        s.counter_fits(profile),
    ensures
        fresh_state(profile).counter_fits(profile),
        run_fits(s, profile, n),
        run_seconds(s, profile, n).0.counter_fits(profile),
    decreases n,
{
    if n > 0 {
        counter_room_lasts(s, profile, (n - 1) as nat);
        let prev = run_seconds(s, profile, (n - 1) as nat).0;
        assert(second_fits(prev));
    }
}

/// The default "classic" settings give the built-in classic profile: 25
/// minutes of work, 5 of short break, and 15 of long break after every fourth
/// work phase.
pub proof fn default_classic_is_builtin(c: crate::config::ProfileConfig)
    requires
        is_default_config(c),
    ensures
        profile_from_config("classic"@, c) == preset(ProfileKind::Classic),
{
}

/// The default "no_long_break" settings give a profile without long breaks,
/// with 25 minutes of work and 5 of short break, that runs through the same
/// phases as the built-in one.
pub proof fn default_no_long_break_runs_as_builtin(
    c: crate::config::ProfileConfig,
    s: TimerState,
)
    requires
        is_default_no_long_break_config(c),
    ensures
        profile_from_config("no_long_break"@, c).kind == ProfileKind::NoLongBreak,
        profile_from_config("no_long_break"@, c).work_secs == 1500,
        profile_from_config("no_long_break"@, c).short_break_secs == 300,
        s.advanced(profile_from_config("no_long_break"@, c)) == s.advanced(
            preset(ProfileKind::NoLongBreak),
        ),
        s.skipped(profile_from_config("no_long_break"@, c)) == s.skipped(
            preset(ProfileKind::NoLongBreak),
        ),
{
    reveal_strlit("classic");
    reveal_strlit("no_long_break");
    assert("no_long_break"@ != "classic"@) by {
        assert("no_long_break"@.len() != "classic"@.len());
    }
}

/// Each kind of phase end has a sound of its own.
pub proof fn sounds_are_distinct(a: PhaseTransition, b: PhaseTransition)
    ensures
        sound_of(a) == sound_of(b) <==> a == b,
{
}

/// Once a countdown reports the end of a phase, the timer has stopped at
/// zero in the same phase with the same count, and a further countdown of
/// any length reports nothing and changes nothing. A countdown that reports
/// nothing leaves the phase running with exactly `dt` seconds less.
pub proof fn reported_end_stops_timer(s: TimerState, dt: u64, more: u64)
    ensures
        s.update_result(dt) is Some <==> (s.running && s.remaining_secs <= dt),
        s.update_result(dt) is Some ==> {
            &&& s.update_result(dt) == Some(ended(s.phase))
            &&& !s.updated(dt).running
            &&& s.updated(dt).remaining_secs == 0
            &&& s.updated(dt).phase == s.phase
            &&& s.updated(dt).cycle_count == s.cycle_count
            &&& s.updated(dt).update_result(more) is None
            &&& s.updated(dt).updated(more) == s.updated(dt)
        },
        (s.running && s.remaining_secs > dt) ==> {
            &&& s.updated(dt).running
            &&& s.updated(dt).remaining_secs + dt == s.remaining_secs
            &&& s.updated(dt).phase == s.phase
            &&& s.updated(dt).cycle_count == s.cycle_count
        },
{
}

/// The end of each phase is reported as that phase's own end.
pub proof fn each_phase_reports_its_end()
    ensures
        ended(Phase::Work) == PhaseTransition::WorkEnded,
        ended(Phase::ShortBreak) == PhaseTransition::ShortBreakEnded,
        ended(Phase::LongBreak) == PhaseTransition::LongBreakEnded,
{
}

/// Each phase lasts what the profile gives it.
pub proof fn phases_last_what_the_profile_says(profile: Profile)
    ensures
        duration(Phase::Work, profile) == profile.work_secs,
        duration(Phase::ShortBreak, profile) == profile.short_break_secs,
        duration(Phase::LongBreak, profile) == profile.long_break_secs,
{
}

/// Restarting puts the current phase back at the full length the profile
/// gives it, paused, whatever the phase and whatever time was left, and keeps
/// the phase and the count of work phases.
pub proof fn restart_gives_full_phase(s: TimerState, profile: Profile)
    ensures
        s.restarted(profile).phase == s.phase,
        s.restarted(profile).cycle_count == s.cycle_count,
        !s.restarted(profile).running,
        s.phase == Phase::Work ==> s.restarted(profile).remaining_secs == profile.work_secs,
        s.phase == Phase::ShortBreak ==> s.restarted(profile).remaining_secs
            == profile.short_break_secs,
        s.phase == Phase::LongBreak ==> s.restarted(profile).remaining_secs
            == profile.long_break_secs,
        s.restarted(profile).restarted(profile) == s.restarted(profile),
{
}

/// Starting over gives work at its full length, paused, with no work phase
/// counted.
pub proof fn fresh_start_is_full_work(profile: Profile)
    ensures
        fresh_state(profile).phase == Phase::Work,
        fresh_state(profile).remaining_secs == profile.work_secs,
        !fresh_state(profile).running,
        fresh_state(profile).cycle_count == 0,
{
}

/// Moving on when a phase ends: a finished work phase is counted and leads to
/// a short break, or in a classic profile to the long break once the count
/// reaches the spacing; a long break, and a short break without long breaks,
/// complete the cycle (count back to zero, timer waiting); a classic short
/// break leads back to work with the count kept and the timer running. The
/// new phase starts at the full length the profile gives it.
pub proof fn advance_rules(s: TimerState, profile: Profile)
    requires
        s.can_count(),
    ensures
        s.phase == Phase::Work ==> {
            &&& s.advanced(profile).cycle_count == s.cycle_count + 1
            &&& s.advanced(profile).running
            &&& s.advanced(profile).phase == (if profile.kind == ProfileKind::Classic
                && s.cycle_count + 1 >= profile.cycles_before_long {
                Phase::LongBreak
            } else {
                Phase::ShortBreak
            })
        },
        s.phase == Phase::LongBreak ==> {
            &&& s.advanced(profile).cycle_count == 0
            &&& !s.advanced(profile).running
            &&& s.advanced(profile).phase == Phase::Work
        },
        s.phase == Phase::ShortBreak ==> {
            &&& s.advanced(profile).phase == Phase::Work
            &&& profile.kind == ProfileKind::NoLongBreak ==> s.advanced(profile).cycle_count == 0
                && !s.advanced(profile).running
            &&& profile.kind == ProfileKind::Classic ==> s.advanced(profile).cycle_count
                == s.cycle_count && s.advanced(profile).running
        },
        s.advanced(profile).phase == Phase::Work ==> s.advanced(profile).remaining_secs
            == profile.work_secs,
        s.advanced(profile).phase == Phase::ShortBreak ==> s.advanced(profile).remaining_secs
            == profile.short_break_secs,
        s.advanced(profile).phase == Phase::LongBreak ==> s.advanced(profile).remaining_secs
            == profile.long_break_secs,
{
}

/// Skipping: a skipped work phase is counted, a skipped long break starts the
/// count over, a skipped short break keeps it; the next phase waits, paused,
/// at its full length.
pub proof fn skip_rules(s: TimerState, profile: Profile)
    requires
        s.can_count(),
    ensures
        !s.skipped(profile).running,
        s.phase == Phase::Work ==> s.skipped(profile).cycle_count == s.cycle_count + 1,
        s.phase == Phase::LongBreak ==> s.skipped(profile).cycle_count == 0,
        s.phase == Phase::Work ==> s.skipped(profile).phase == (if profile.kind
            == ProfileKind::Classic && s.cycle_count + 1 >= profile.cycles_before_long {
            Phase::LongBreak
        } else {
            Phase::ShortBreak
        }),
        s.phase == Phase::ShortBreak ==> s.skipped(profile).cycle_count == s.cycle_count,
        s.phase != Phase::Work ==> s.skipped(profile).phase == Phase::Work,
        s.skipped(profile).phase == Phase::Work ==> s.skipped(profile).remaining_secs
            == profile.work_secs,
        s.skipped(profile).phase == Phase::ShortBreak ==> s.skipped(profile).remaining_secs
            == profile.short_break_secs,
        s.skipped(profile).phase == Phase::LongBreak ==> s.skipped(profile).remaining_secs
            == profile.long_break_secs,
{
}

/// The cycle counter shows the work phases done: during a break exactly the
/// count, during work the count plus the current one. In the long break of a
/// consistent classic cycle every dot is therefore filled.
pub proof fn counter_shows_work_done(t: TimerState, profile: Profile)
    ensures
        t.phase != Phase::Work ==> shown_cycles(t) == t.cycle_count,
        t.phase == Phase::Work ==> shown_cycles(t) == t.cycle_count + 1,
        (profile.kind == ProfileKind::Classic && profile.cycles_before_long >= 1
            && t.well_formed(profile) && t.phase == Phase::LongBreak) ==> shown_cycles(t)
            == profile.cycles_before_long,
{
}

/// The active profile takes every duration from the chosen settings: work
/// and short break as configured, the long break as configured or zero
/// without one, the spacing of long breaks as configured or four without one;
/// it is classic exactly when its name is "classic".
pub proof fn profile_takes_its_settings(name: Seq<char>, c: ProfileConfig)
    ensures
        profile_from_config(name, c).work_secs == c.work_duration_secs,
        profile_from_config(name, c).short_break_secs == c.short_break_secs,
        c.long_break_secs matches Some(secs) ==> profile_from_config(name, c).long_break_secs
            == secs,
        c.long_break_secs is None ==> profile_from_config(name, c).long_break_secs == 0,
        c.cycles_before_long_break matches Some(k) ==> profile_from_config(
            name,
            c,
        ).cycles_before_long == k,
        c.cycles_before_long_break is None ==> profile_from_config(name, c).cycles_before_long
            == 4,
        (profile_from_config(name, c).kind == ProfileKind::Classic) == (name == "classic"@),
{
}

/// The number that a string of decimal digits stands for.
pub open spec fn digits_value(s: Seq<char>) -> int
    decreases s.len(),
{
    if s.len() == 0 {
        0
    } else {
        digits_value(s.drop_last()) * 10 + (s.last() as int - '0' as int)
    }
}

/// Whether every character of `s` is a decimal digit.
pub open spec fn all_digits(s: Seq<char>) -> bool {
    forall|i: int| 0 <= i < s.len() ==> '0' <= #[trigger] s[i] <= '9'
}

proof fn digit_char_value(d: nat)
    requires
        d < 10,
    ensures
        '0' <= digit_char(d) <= '9',
        digit_char(d) as int - '0' as int == d,
{
    assert('0' as int == 48 && '1' as int == 49 && '2' as int == 50 && '3' as int == 51 && '4' as int
        == 52 && '5' as int == 53 && '6' as int == 54 && '7' as int == 55 && '8' as int == 56
        && '9' as int == 57);
}

/// The decimal digits of a number read back as that number.
pub proof fn decimal_reads_back(n: nat)
    ensures
        all_digits(decimal(n)),
        decimal(n).len() >= 1,
        digits_value(decimal(n)) == n,
        digits_value(two_digits(n)) == n,
        all_digits(two_digits(n)),
        two_digits(n).len() >= 2,
        n < 100 ==> two_digits(n).len() == 2,
    decreases n,
{
    digit_char_value(n % 10);
    if n >= 10 {
        decimal_reads_back(n / 10);
        assert(decimal(n).drop_last() =~= decimal(n / 10));
        assert(decimal(n).last() == digit_char(n % 10));
        assert(digits_value(decimal(n)) == digits_value(decimal(n / 10)) * 10 + (digit_char(n % 10)
            as int - '0' as int));
        assert(n == (n / 10) * 10 + n % 10);
        assert(all_digits(decimal(n))) by {
            assert forall|i: int| 0 <= i < decimal(n).len() implies '0' <= #[trigger] decimal(n)[i]
                <= '9' by {
                if i < decimal(n).len() - 1 {
                    assert(decimal(n)[i] == decimal(n / 10)[i]);
                }
            }
        }
    }
    if n < 10 {
        assert(two_digits(n).drop_last() =~= seq!['0']);
        assert(seq!['0'].drop_last() =~= Seq::<char>::empty());
        assert(decimal(n).drop_last() =~= Seq::<char>::empty());
        assert(digits_value(Seq::<char>::empty()) == 0);
        assert(digits_value(seq!['0']) == 0);
        assert(digits_value(decimal(n)) == n);
        assert(digits_value(two_digits(n)) == digits_value(seq!['0']) * 10 + (digit_char(n)
            as int - '0' as int));
    }
}

/// The shown time reads back as the remaining seconds: minutes, a colon,
/// then seconds below sixty, each at least two digits.
pub proof fn clock_text_reads_back(secs: nat)
    ensures
        exists|m: Seq<char>, s: Seq<char>|
            #![trigger digits_value(m), digits_value(s)]
            {
                &&& clock_text(secs) == m + seq![':'] + s
                &&& all_digits(m) && all_digits(s)
                &&& m.len() >= 2 && s.len() == 2
                &&& digits_value(s) < 60
                &&& digits_value(m) * 60 + digits_value(s) == secs
            },
{
    decimal_reads_back(secs / 60);
    decimal_reads_back(secs % 60);
    let m = two_digits(secs / 60);
    let s = two_digits(secs % 60);
    assert(digits_value(m) * 60 + digits_value(s) == secs);
}

/// Starting switches the countdown on and pausing switches it off; neither
/// touches the phase, the time left or the count of work phases.
pub proof fn start_and_pause_only_switch(s: TimerState)
    ensures
        s.started().running,
        !s.paused().running,
        s.started().phase == s.phase && s.paused().phase == s.phase,
        s.started().remaining_secs == s.remaining_secs && s.paused().remaining_secs
            == s.remaining_secs,
        s.started().cycle_count == s.cycle_count && s.paused().cycle_count == s.cycle_count,
{
}

/// The end of work sounds the work-end sound, and each break its own.
pub proof fn each_end_has_its_sound()
    ensures
        sound_of(PhaseTransition::WorkEnded) == crate::audio::SoundEvent::WorkEnd,
        sound_of(PhaseTransition::ShortBreakEnded) == crate::audio::SoundEvent::ShortBreakEnd,
        sound_of(PhaseTransition::LongBreakEnded) == crate::audio::SoundEvent::LongBreakEnd,
{
}

/// The built-in profiles: classic has 25 minutes of work, 5 of short break
/// and 15 of long break after every fourth work phase; the other has the same
/// work and short break and no long break.
pub proof fn builtin_profiles()
    ensures
        preset(ProfileKind::Classic).kind == ProfileKind::Classic,
        preset(ProfileKind::Classic).work_secs == 25 * 60,
        preset(ProfileKind::Classic).short_break_secs == 5 * 60,
        preset(ProfileKind::Classic).long_break_secs == 15 * 60,
        preset(ProfileKind::Classic).cycles_before_long == 4,
        preset(ProfileKind::NoLongBreak).kind == ProfileKind::NoLongBreak,
        preset(ProfileKind::NoLongBreak).work_secs == 25 * 60,
        preset(ProfileKind::NoLongBreak).short_break_secs == 5 * 60,
{
}

} // verus!
