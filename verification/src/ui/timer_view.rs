//! The text and the cycle counter that the timer window shows.
use vstd::prelude::*;

use crate::timer::{Phase, Profile, ProfileKind, TimerState};

verus! {

/// The character of the decimal digit `d`.
pub open spec fn digit_char(d: nat) -> char {
    if d == 0 {
        '0'
    } else if d == 1 {
        '1'
    } else if d == 2 {
        '2'
    } else if d == 3 {
        '3'
    } else if d == 4 {
        '4'
    } else if d == 5 {
        '5'
    } else if d == 6 {
        '6'
    } else if d == 7 {
        '7'
    } else if d == 8 {
        '8'
    } else {
        '9'
    }
}

/// The decimal digits of `n`, without leading zeros.
pub open spec fn decimal(n: nat) -> Seq<char>
    decreases n,
{
    if n < 10 {
        seq![digit_char(n)]
    } else {
        decimal(n / 10).push(digit_char(n % 10))
    }
}

/// The decimal digits of `n`, padded with a zero to at least two.
pub open spec fn two_digits(n: nat) -> Seq<char> {
    if n < 10 {
        seq!['0', digit_char(n)]
    } else {
        decimal(n)
    }
}

/// A number of seconds as minutes and seconds, `MM:SS`.
pub open spec fn clock_text(secs: nat) -> Seq<char> {
    two_digits(secs / 60) + seq![':'] + two_digits(secs % 60)
}

/// Appends `c` to `s` with `String::push`.
#[verifier::external_body]
fn push_char(s: &mut String, c: char)
    ensures
        final(s)@ == old(s)@.push(c),
{
    s.push(c);
}

fn digit(d: u64) -> (c: char)
    requires
        d < 10,
    ensures
        c == digit_char(d as nat),
{
    if d == 0 {
        '0'
    } else if d == 1 {
        '1'
    } else if d == 2 {
        '2'
    } else if d == 3 {
        '3'
    } else if d == 4 {
        '4'
    } else if d == 5 {
        '5'
    } else if d == 6 {
        '6'
    } else if d == 7 {
        '7'
    } else if d == 8 {
        '8'
    } else {
        '9'
    }
}

fn push_decimal(out: &mut String, n: u64)
    ensures
        final(out)@ == old(out)@ + decimal(n as nat),
    decreases n,
{
    if n >= 10 {
        push_decimal(out, n / 10);
    }
    push_char(out, digit(n % 10));
    proof {
        if n >= 10 {
            assert(old(out)@ + decimal(n as nat) =~= (old(out)@ + decimal((n / 10) as nat)).push(
                digit_char((n % 10) as nat),
            ));
        }
    }
}

fn push_two_digits(out: &mut String, n: u64)
    ensures
        final(out)@ == old(out)@ + two_digits(n as nat),
{
    if n < 10 {
        push_char(out, '0');
    }
    push_decimal(out, n);
    proof {
        if n < 10 {
            assert(old(out)@ + two_digits(n as nat) =~= old(out)@.push('0') + decimal(n as nat));
        }
    }
}

/// The remaining time as shown: minutes and seconds, each at least two digits.
pub fn timer_text(remaining_secs: u64) -> (r: String)
    ensures
        r@ == clock_text(remaining_secs as nat),
{
    let mut text = String::new();
    push_two_digits(&mut text, remaining_secs / 60);
    push_char(&mut text, ':');
    push_two_digits(&mut text, remaining_secs % 60);
    proof {
        assert(text@ =~= clock_text(remaining_secs as nat));
    }
    text
}

/// The name shown for a phase.
pub fn phase_name(phase: Phase) -> (r: &'static str)
    ensures
        r@ == match phase {
            Phase::Work => "Work"@,
            Phase::ShortBreak => "Short Break"@,
            Phase::LongBreak => "Long Break"@,
        },
{
    match phase {
        Phase::Work => "Work",
        Phase::ShortBreak => "Short Break",
        Phase::LongBreak => "Long Break",
    }
}

/// The number of work phases that the counter shows as done: during work the
/// current one counts too.
pub open spec fn shown_cycles(timer: TimerState) -> int {
    match timer.phase {
        Phase::Work => timer.cycle_count + 1,
        Phase::ShortBreak | Phase::LongBreak => timer.cycle_count as int,
    }
}

/// The number of work phases that the counter shows as done.
pub fn displayed_cycles(timer: &TimerState) -> (r: u32)
    requires
        timer.can_count(),
    ensures
        r == shown_cycles(*timer),
{
    match timer.phase {
        Phase::Work => timer.cycle_count + 1,
        Phase::ShortBreak | Phase::LongBreak => timer.cycle_count,
    }
}

/// The dots of the cycle counter, one for each of `total` work phases, filled
/// for the first `completed`.
pub fn cycle_dots(completed: u32, total: u32) -> (r: Vec<bool>)
    ensures
        r.len() == total,
        forall|i: int| 0 <= i < total ==> r[i] == (i < completed),
{
    let mut dots: Vec<bool> = Vec::new();
    let mut i: u32 = 0;
    while i < total
        invariant
            i <= total,
            dots.len() == i,
            forall|j: int| 0 <= j < i ==> dots[j] == (j < completed),
        decreases total - i,
    {
        dots.push(i < completed);
        i += 1;
    }
    dots
}

/// The cycle counter of the window: shown for a classic profile only, with a
/// dot for each work phase before the long break, filled for those done.
pub fn cycle_counter(timer: &TimerState, profile: &Profile) -> (r: Option<Vec<bool>>)
    requires
        profile.kind == ProfileKind::Classic ==> timer.can_count(),
    ensures
        profile.kind == ProfileKind::NoLongBreak ==> r is None,
        profile.kind == ProfileKind::Classic ==> (r matches Some(dots) && dots.len()
            == profile.cycles_before_long && forall|i: int|
            0 <= i < dots.len() ==> dots[i] == (i < shown_cycles(*timer))),
{
    match profile.kind {
        ProfileKind::Classic => Some(cycle_dots(displayed_cycles(timer), profile.cycles_before_long)),
        ProfileKind::NoLongBreak => None,
    }
}

} // verus!
