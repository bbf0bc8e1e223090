use media_bridge::event::{
    translate_button, MediaControlEvent, BUTTON_NEXT, BUTTON_PAUSE, BUTTON_PLAY, BUTTON_PREVIOUS,
};

#[test]
fn recognized_buttons_translate() {
    assert_eq!(translate_button(BUTTON_PLAY), Some(MediaControlEvent::Play));
    assert_eq!(translate_button(BUTTON_PAUSE), Some(MediaControlEvent::Pause));
    assert_eq!(translate_button(BUTTON_NEXT), Some(MediaControlEvent::Next));
    assert_eq!(
        translate_button(BUTTON_PREVIOUS),
        Some(MediaControlEvent::Previous)
    );
}

#[test]
fn unrecognized_buttons_drop() {
    // Stop, record, fast-forward, rewind and anything beyond the known range
    // all map to no event.
    for button in [2, 3, 4, 5, 8, 9, 100, u32::MAX] {
        assert_eq!(translate_button(button), None);
    }
}

#[test]
fn translation_is_idempotent() {
    // The same unrecognized identifier repeatedly yields no event; the same
    // recognized identifier repeatedly yields the same event.
    for _ in 0..3 {
        assert_eq!(translate_button(42), None);
        assert_eq!(translate_button(BUTTON_PAUSE), Some(MediaControlEvent::Pause));
    }
}
