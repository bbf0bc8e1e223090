//! The bridge and its reconciliation loop: one poll tick drains the queue,
//! dispatches the drained events to the player in arrival order, then
//! publishes the player's resulting metadata and playback status.

use vstd::prelude::*;
use crate::event::{spec_translate, translate_button, MediaControlEvent};
use crate::player::MediaPlayer;
use crate::queue::EventQueue;
use crate::session::{spec_status, status_of, MediaSession, PublishError};

verus! {

/// What the playing flag must be after a batch of events is applied in
/// order, where the contracts determine it: the last event of the batch
/// wins; a final play or pause settles the flag; a final next or previous
/// leaves it to the player; an empty batch leaves the flag as it was.
pub open spec fn playing_outcome(initial: bool, events: Seq<MediaControlEvent>) -> Option<
    bool,
> {
    if events.len() == 0 {
        Some(initial)
    } else {
        match events.last() {
            MediaControlEvent::Play => Some(true),
            MediaControlEvent::Pause => Some(false),
            MediaControlEvent::Next => None,
            MediaControlEvent::Previous => None,
        }
    }
}

/// Dispatches a drained batch to the player, one call per event, in FIFO
/// order: arrival order is applied order, so within a tick a later press
/// wins over an earlier one.
pub fn apply_events<P: MediaPlayer>(player: &mut P, events: &Vec<MediaControlEvent>)
    ensures
        final(player).transport_calls() == old(player).transport_calls() + events@,
        (match playing_outcome(old(player).spec_playing(), events@) {
            Some(playing) => final(player).spec_playing() == playing,
            None => true,
        }),
        events@.len() == 0 ==> *final(player) == *old(player),
{
    let ghost initial_calls = player.transport_calls();
    let ghost initial_playing = player.spec_playing();
    let n: usize = events.len();
    let mut i: usize = 0;
    while i < n
        invariant
            n == events@.len(),
            i <= n,
            player.transport_calls() == initial_calls + events@.take(i as int),
            (match playing_outcome(initial_playing, events@.take(i as int)) {
                Some(playing) => player.spec_playing() == playing,
                None => true,
            }),
            i == 0 ==> *player == *old(player),
        decreases n - i,
    {
        let event = events[i];
        match event {
            MediaControlEvent::Play => player.play(),
            MediaControlEvent::Pause => player.pause(),
            MediaControlEvent::Next => player.next(),
            MediaControlEvent::Previous => player.previous(),
        }
        proof {
            assert(events@.take(i as int + 1) =~= events@.take(i as int).push(
                events@[i as int],
            ));
            assert(initial_calls + events@.take(i as int + 1) =~= (initial_calls
                + events@.take(i as int)).push(events@[i as int]));
        }
        i = i + 1;
    }
    proof {
        assert(events@.take(n as int) =~= events@);
        assert(initial_calls + events@ == player.transport_calls());
    }
}

/// The observability record of one poll tick: how many events were applied
/// and whether either publish reported a failure. A failure never aborts the
/// tick and never latches; the next tick retries unconditionally.
pub struct TickReport {
    /// How many drained events were dispatched to the player this tick.
    pub events_applied: usize,
    /// The failure the metadata publish reported, if any.
    pub metadata_error: Option<PublishError>,
    /// The failure the status publish reported, if any.
    pub status_error: Option<PublishError>,
}

/// The bridge between the OS transport controls and the application's
/// player: it owns the registered session and the event queue, and exposes
/// the per-tick reconciliation loop.
///
/// The host performs the platform's registration ceremony itself and hands
/// the resulting session to `new`; registration failures surface there as
/// the host's registration error, so no partially registered session ever
/// reaches the bridge. On teardown the host must revoke the OS callback
/// registration before dropping the bridge, or the OS may still invoke the
/// callback into a dead queue.
pub struct WindowsMediaControls<C: MediaSession> {
    /// The registered OS session: display updater and status setter.
    pub session: C,
    /// The queue the producer side (the OS callback) feeds.
    pub queue: EventQueue,
}

impl<C: MediaSession> WindowsMediaControls<C> {
    /// A bridge around an already-registered session, with an empty queue
    /// and the producer outside its critical section.
    pub fn new(session: C) -> (bridge: Self)
        ensures
            bridge.queue@ == Seq::<MediaControlEvent>::empty(),
            !bridge.queue.producer_locked(),
            bridge.session == session,
    {
        WindowsMediaControls { session, queue: EventQueue::new() }
    }

    /// The producer side as the OS callback runs it: translates the button
    /// identifier and enqueues the event; an unrecognized button is dropped
    /// and the queue left untouched.
    pub fn handle_button(&mut self, button: u32)
        ensures
            final(self).session == old(self).session,
            final(self).queue.producer_locked() == old(self).queue.producer_locked(),
            (match spec_translate(button) {
                Some(event) => final(self).queue@ == old(self).queue@.push(event),
                None => final(self).queue@ == old(self).queue@,
            }),
    {
        match translate_button(button) {
            Some(event) => self.queue.push(event),
            None => {},
        }
    }

    /// One reconciliation tick. It never fails and never blocks: a queue
    /// held by the producer defers the drain to the next tick.
    ///
    /// The tick drains the queue without blocking, dispatches the drained
    /// events to the player in arrival order, then reads the player's state
    /// once — after all dispatched mutations — and publishes metadata first
    /// and playback status second. Both publishes are attempted on every
    /// tick, each one even if the other fails, and a failure is only
    /// reported in the returned record.
    pub fn poll<P: MediaPlayer>(&mut self, player: &mut P) -> (report: TickReport)
        ensures
            // A drain deferred by the producer's lock loses nothing and
            // mutates nothing.
            old(self).queue.producer_locked() ==> final(self).queue@ == old(self).queue@
                && *final(player) == *old(player) && report.events_applied == 0,
            // An uncontended drain empties the queue and dispatches exactly
            // its contents, in order.
            !old(self).queue.producer_locked() ==> final(self).queue@ == Seq::<
                MediaControlEvent,
            >::empty() && final(player).transport_calls() == old(player).transport_calls()
                + old(self).queue@ && report.events_applied == old(self).queue@.len() && (
            match playing_outcome(old(player).spec_playing(), old(self).queue@) {
                Some(playing) => final(player).spec_playing() == playing,
                None => true,
            }),
            // An empty uncontended queue mutates the player not at all.
            !old(self).queue.producer_locked() && old(self).queue@.len() == 0
                ==> *final(player) == *old(player),
            // Both publishes are attempted every tick, with the player's
            // post-dispatch state: metadata, and then the status derived
            // from the playing flag. Neither attempt is conditioned on the
            // other's outcome.
            final(self).session.metadata_attempts()
                == old(self).session.metadata_attempts().push(final(player).spec_metadata()),
            final(self).session.status_attempts() == old(self).session.status_attempts().push(
                spec_status(final(player).spec_playing()),
            ),
            final(self).queue.producer_locked() == old(self).queue.producer_locked(),
    {
        let drained = self.queue.try_drain();
        let events_applied: usize = drained.len();
        apply_events(player, &drained);
        let metadata = player.metadata();
        let metadata_error = match self.session.publish_metadata(&metadata) {
            Ok(()) => None,
            Err(e) => Some(e),
        };
        let playing = player.playing();
        let status_error = match self.session.publish_status(status_of(playing)) {
            Ok(()) => None,
            Err(e) => Some(e),
        };
        TickReport { events_applied, metadata_error, status_error }
    }
}

} // verus!
