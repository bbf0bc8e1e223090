//! Canonical transport events and the translation of OS button identifiers
//! into them.

use vstd::prelude::*;

verus! {

/// A transport command delivered by the host OS's media controls.
///
/// A closed enumeration: immutable, value-typed, no identity beyond its
/// variant. Produced by the button translator, consumed exactly once by the
/// reconciliation loop.
#[derive(Clone, Copy, PartialEq, Eq, Structural, Debug)]
pub enum MediaControlEvent {
    Play,
    Pause,
    Next,
    Previous,
}

/// Button identifier the system transport controls use for the play button.
pub const BUTTON_PLAY: u32 = 0;

/// Button identifier for the pause button.
pub const BUTTON_PAUSE: u32 = 1;

/// Button identifier for the next-track button.
pub const BUTTON_NEXT: u32 = 6;

/// Button identifier for the previous-track button.
pub const BUTTON_PREVIOUS: u32 = 7;

/// What a button identifier translates to: each of the four recognized
/// buttons maps to its event; every other identifier maps to nothing.
pub open spec fn spec_translate(button: u32) -> Option<MediaControlEvent> {
    if button == BUTTON_PLAY {
        Some(MediaControlEvent::Play)
    } else if button == BUTTON_PAUSE {
        Some(MediaControlEvent::Pause)
    } else if button == BUTTON_NEXT {
        Some(MediaControlEvent::Next)
    } else if button == BUTTON_PREVIOUS {
        Some(MediaControlEvent::Previous)
    } else {
        None
    }
}

/// Maps an OS button identifier to a canonical event.
///
/// Unrecognized identifiers yield `None` and are dropped with no error
/// raised: the OS button enumeration may grow, so an unknown button is a
/// forward-compatibility case, never a fatal condition. The function has no
/// side effects and cannot fail.
pub fn translate_button(button: u32) -> (r: Option<MediaControlEvent>)
    ensures
        r == spec_translate(button),
{
    if button == BUTTON_PLAY {
        Some(MediaControlEvent::Play)
    } else if button == BUTTON_PAUSE {
        Some(MediaControlEvent::Pause)
    } else if button == BUTTON_NEXT {
        Some(MediaControlEvent::Next)
    } else if button == BUTTON_PREVIOUS {
        Some(MediaControlEvent::Previous)
    } else {
        None
    }
}

/// Translation is a pure function of the identifier alone: two translations
/// of the same button always agree, whether or not the button is recognized.
pub proof fn lemma_translation_deterministic(
    button: u32,
    first: Option<MediaControlEvent>,
    second: Option<MediaControlEvent>,
)
    requires
        first == spec_translate(button),
        second == spec_translate(button),
    ensures
        first == second,
{
}

/// An identifier outside the four recognized buttons is always dropped.
pub proof fn lemma_unrecognized_button_dropped(button: u32)
    requires
        button != BUTTON_PLAY,
        button != BUTTON_PAUSE,
        button != BUTTON_NEXT,
        button != BUTTON_PREVIOUS,
    ensures
        spec_translate(button) is None,
{
}

} // verus!
