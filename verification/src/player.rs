//! The player collaborator: the interface the reconciliation loop drives,
//! and a simulated player for hosts without a real audio engine and for
//! tests.

use vstd::prelude::*;
use crate::event::MediaControlEvent;

verus! {

/// Now-playing metadata: a read-only snapshot supplied by the player on each
/// poll tick; nothing of it is retained across ticks.
#[derive(PartialEq, Eq, Debug)]
pub struct Metadata {
    pub title: String,
    pub artist: String,
    pub album: String,
}

/// The mathematical value of a metadata snapshot.
pub struct MetadataView {
    pub title: Seq<char>,
    pub artist: Seq<char>,
    pub album: Seq<char>,
}

impl View for Metadata {
    type V = MetadataView;

    open spec fn view(&self) -> MetadataView {
        MetadataView { title: self.title@, artist: self.artist@, album: self.album@ }
    }
}

impl Metadata {
    /// An owned copy carrying the same text.
    pub fn duplicate(&self) -> (m: Metadata)
        ensures
            m@ == self@,
    {
        Metadata {
            title: self.title.clone(),
            artist: self.artist.clone(),
            album: self.album.clone(),
        }
    }
}

/// The application's player, as the reconciliation loop sees it.
///
/// `transport_calls` is the history of transport commands the player has
/// received, oldest first; each mutating method appends its own command, so
/// callers can state the exact order in which commands were dispatched.
/// `play` and `pause` settle the playing flag; `next` and `previous` leave it
/// to the implementation, since skipping tracks may or may not start
/// playback. All mutating calls are fire-and-forget: the bridge consults no
/// return value.
pub trait MediaPlayer: Sized {
    /// Whether the player is currently playing.
    spec fn spec_playing(&self) -> bool;

    /// The player's current now-playing metadata.
    spec fn spec_metadata(&self) -> MetadataView;

    /// History of transport commands received, oldest first.
    spec fn transport_calls(&self) -> Seq<MediaControlEvent>;

    /// Reads the playing flag.
    fn playing(&self) -> (r: bool)
        ensures
            r == self.spec_playing(),
    ;

    /// Reads the current metadata snapshot.
    fn metadata(&self) -> (m: Metadata)
        ensures
            m@ == self.spec_metadata(),
    ;

    /// Starts playback.
    fn play(&mut self)
        ensures
            final(self).transport_calls() == old(self).transport_calls().push(
                MediaControlEvent::Play,
            ),
            final(self).spec_playing(),
    ;

    /// Pauses playback.
    fn pause(&mut self)
        ensures
            final(self).transport_calls() == old(self).transport_calls().push(
                MediaControlEvent::Pause,
            ),
            !final(self).spec_playing(),
    ;

    /// Skips to the next track.
    fn next(&mut self)
        ensures
            final(self).transport_calls() == old(self).transport_calls().push(
                MediaControlEvent::Next,
            ),
    ;

    /// Skips to the previous track.
    fn previous(&mut self)
        ensures
            final(self).transport_calls() == old(self).transport_calls().push(
                MediaControlEvent::Previous,
            ),
    ;
}

/// A simulated player: it records every transport command it receives, keeps
/// a playing flag that `play` and `pause` settle, and serves a fixed metadata
/// snapshot. `next` and `previous` only record themselves.
pub struct SimPlayer {
    /// Whether the simulated player is playing.
    pub now_playing: bool,
    /// The metadata snapshot the player serves.
    pub current: Metadata,
    /// Every transport command received, oldest first.
    pub received: Vec<MediaControlEvent>,
}

impl SimPlayer {
    /// A simulated player with the given starting state and an empty command
    /// history.
    pub fn new(now_playing: bool, current: Metadata) -> (p: SimPlayer)
        ensures
            p.spec_playing() == now_playing,
            p.spec_metadata() == current@,
            p.transport_calls() == Seq::<MediaControlEvent>::empty(),
    {
        SimPlayer { now_playing, current, received: Vec::new() }
    }
}

impl MediaPlayer for SimPlayer {
    open spec fn spec_playing(&self) -> bool {
        self.now_playing
    }

    open spec fn spec_metadata(&self) -> MetadataView {
        self.current@
    }

    open spec fn transport_calls(&self) -> Seq<MediaControlEvent> {
        self.received@
    }

    fn playing(&self) -> (r: bool) {
        self.now_playing
    }

    fn metadata(&self) -> (m: Metadata) {
        self.current.duplicate()
    }

    fn play(&mut self) {
        self.received.push(MediaControlEvent::Play);
        self.now_playing = true;
    }

    fn pause(&mut self) {
        self.received.push(MediaControlEvent::Pause);
        self.now_playing = false;
    }

    fn next(&mut self) {
        self.received.push(MediaControlEvent::Next);
    }

    fn previous(&mut self) {
        self.received.push(MediaControlEvent::Previous);
    }
}

} // verus!
