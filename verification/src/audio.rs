//! The sounds that mark the end of each phase.
use vstd::prelude::*;

use crate::timer::PhaseTransition;

verus! {

/// The sound events of the application, one for the end of each phase.
#[derive(Debug, Clone, Copy, PartialEq, Eq, Structural)]
pub enum SoundEvent {
    WorkEnd,
    ShortBreakEnd,
    LongBreakEnd,
}

/// The sound that marks `transition`.
pub open spec fn sound_of(transition: PhaseTransition) -> SoundEvent {
    match transition {
        PhaseTransition::WorkEnded => SoundEvent::WorkEnd,
        PhaseTransition::ShortBreakEnded => SoundEvent::ShortBreakEnd,
        PhaseTransition::LongBreakEnded => SoundEvent::LongBreakEnd,
    }
}

/// The sound to play when a phase ends: the one that belongs to the ending
/// phase, or none when sound is switched off.
pub fn sound_for_transition(transition: PhaseTransition, sound_enabled: bool) -> (r: Option<
    SoundEvent,
>)
    ensures
        r == (if sound_enabled {
            Some(sound_of(transition))
        } else {
            None
        }),
{
    if sound_enabled {
        let event = match transition {
            PhaseTransition::WorkEnded => SoundEvent::WorkEnd,
            PhaseTransition::ShortBreakEnded => SoundEvent::ShortBreakEnd,
            PhaseTransition::LongBreakEnded => SoundEvent::LongBreakEnd,
        };
        Some(event)
    } else {
        None
    }
}

} // verus!
