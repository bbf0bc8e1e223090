use media_bridge::bridge::WindowsMediaControls;
use media_bridge::event::{MediaControlEvent, BUTTON_NEXT, BUTTON_PAUSE};
use media_bridge::player::{Metadata, SimPlayer};
use media_bridge::session::{PlaybackStatus, PublishError, RecordingSession};

fn sample_metadata() -> Metadata {
    Metadata {
        title: "Gymnopedie No. 1".to_string(),
        artist: "Erik Satie".to_string(),
        album: "Trois Gymnopedies".to_string(),
    }
}

#[test]
fn next_then_pause_scenario() {
    // Construct a bridge; push next and pause via the simulated producer;
    // poll once; the player receives next() then pause() in that order, and
    // the published status corresponds to not playing.
    let mut bridge = WindowsMediaControls::new(RecordingSession::new());
    bridge.handle_button(BUTTON_NEXT);
    bridge.handle_button(BUTTON_PAUSE);
    let mut player = SimPlayer::new(true, sample_metadata());

    let report = bridge.poll(&mut player);

    assert_eq!(report.events_applied, 2);
    assert_eq!(
        player.received,
        vec![MediaControlEvent::Next, MediaControlEvent::Pause]
    );
    assert!(!player.now_playing);
    assert_eq!(bridge.session.status_log, vec![PlaybackStatus::Paused]);
}

#[test]
fn last_writer_wins_within_a_tick() {
    // Pause then play drained in one tick: the calls are applied in that
    // order and the published status reflects playing.
    let mut bridge = WindowsMediaControls::new(RecordingSession::new());
    bridge.queue.push(MediaControlEvent::Pause);
    bridge.queue.push(MediaControlEvent::Play);
    let mut player = SimPlayer::new(false, sample_metadata());

    bridge.poll(&mut player);

    assert_eq!(
        player.received,
        vec![MediaControlEvent::Pause, MediaControlEvent::Play]
    );
    assert!(player.now_playing);
    assert_eq!(bridge.session.status_log, vec![PlaybackStatus::Playing]);
}

#[test]
fn empty_queue_tick_republishes_unchanged_state() {
    // A poll with an empty queue mutates the player not at all, but still
    // publishes the current metadata and status.
    let mut bridge = WindowsMediaControls::new(RecordingSession::new());
    let mut player = SimPlayer::new(true, sample_metadata());

    let report = bridge.poll(&mut player);

    assert_eq!(report.events_applied, 0);
    assert!(player.received.is_empty());
    assert!(player.now_playing);
    assert_eq!(bridge.session.metadata_log, vec![sample_metadata()]);
    assert_eq!(bridge.session.status_log, vec![PlaybackStatus::Playing]);
}

#[test]
fn publish_failure_is_isolated() {
    // A failing metadata publish is reported, the status publish still
    // happens in the same tick, and the next tick proceeds normally.
    let mut bridge = WindowsMediaControls::new(RecordingSession::new());
    bridge.session.fail_metadata = true;
    let mut player = SimPlayer::new(false, sample_metadata());

    let report = bridge.poll(&mut player);
    assert_eq!(report.metadata_error, Some(PublishError::Rejected));
    assert_eq!(report.status_error, None);
    assert_eq!(bridge.session.metadata_log.len(), 1);
    assert_eq!(bridge.session.status_log, vec![PlaybackStatus::Paused]);

    // No latched failure: with the fault gone, the next poll succeeds.
    bridge.session.fail_metadata = false;
    let report = bridge.poll(&mut player);
    assert_eq!(report.metadata_error, None);
    assert_eq!(report.status_error, None);
    assert_eq!(bridge.session.metadata_log.len(), 2);
    assert_eq!(bridge.session.status_log.len(), 2);
}

#[test]
fn deferred_tick_keeps_events_for_the_next_tick() {
    // A poll that finds the producer inside its critical section applies
    // nothing, but still publishes; the deferred events arrive one tick
    // later.
    let mut bridge = WindowsMediaControls::new(RecordingSession::new());
    bridge.handle_button(BUTTON_NEXT);
    bridge.queue.hold_producer_lock();
    let mut player = SimPlayer::new(false, sample_metadata());

    let report = bridge.poll(&mut player);
    assert_eq!(report.events_applied, 0);
    assert!(player.received.is_empty());
    assert_eq!(bridge.session.status_log.len(), 1);

    bridge.queue.release_producer_lock();
    let report = bridge.poll(&mut player);
    assert_eq!(report.events_applied, 1);
    assert_eq!(player.received, vec![MediaControlEvent::Next]);
    assert_eq!(bridge.session.status_log.len(), 2);
}

#[test]
fn unrecognized_button_never_reaches_the_player() {
    let mut bridge = WindowsMediaControls::new(RecordingSession::new());
    bridge.handle_button(2);
    bridge.handle_button(99);
    assert_eq!(bridge.queue.len(), 0);
    let mut player = SimPlayer::new(true, sample_metadata());
    let report = bridge.poll(&mut player);
    assert_eq!(report.events_applied, 0);
    assert!(player.received.is_empty());
}

#[test]
fn published_metadata_reflects_post_dispatch_state() {
    // The metadata published on a tick is read after the tick's events are
    // applied.
    let mut bridge = WindowsMediaControls::new(RecordingSession::new());
    bridge.queue.push(MediaControlEvent::Play);
    let mut player = SimPlayer::new(false, sample_metadata());

    bridge.poll(&mut player);

    assert_eq!(bridge.session.metadata_log, vec![sample_metadata()]);
    assert_eq!(bridge.session.status_log, vec![PlaybackStatus::Playing]);
}
