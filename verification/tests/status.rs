use media_bridge::session::{status_of, transport_status_code, PlaybackStatus};

#[test]
fn status_derives_from_playing_flag() {
    assert_eq!(status_of(true), PlaybackStatus::Playing);
    assert_eq!(status_of(false), PlaybackStatus::Paused);
}

#[test]
fn transport_codes_match_the_os_enumeration() {
    assert_eq!(transport_status_code(PlaybackStatus::Playing), 3);
    assert_eq!(transport_status_code(PlaybackStatus::Paused), 4);
}
