//! The OS display-surface collaborator: the playback status and its
//! derivation, the error taxonomy, the session interface a host's platform
//! glue must satisfy, and a recording session for simulated hosts and tests.

use vstd::prelude::*;
use crate::player::{Metadata, MetadataView};

verus! {

/// The published playback status. Only playing and paused are modeled: an
/// explicit scope limit, not an oversight.
#[derive(Clone, Copy, PartialEq, Eq, Structural, Debug)]
pub enum PlaybackStatus {
    Playing,
    Paused,
}

/// The status derived from the player's playing flag: it is a pure function
/// of that flag at poll time, never stored.
pub open spec fn spec_status(playing: bool) -> PlaybackStatus {
    if playing {
        PlaybackStatus::Playing
    } else {
        PlaybackStatus::Paused
    }
}

/// Maps the player's playing flag to the status to publish.
pub fn status_of(playing: bool) -> (s: PlaybackStatus)
    ensures
        s == spec_status(playing),
{
    if playing {
        PlaybackStatus::Playing
    } else {
        PlaybackStatus::Paused
    }
}

/// The numeric code the system media transport controls use for a status.
pub open spec fn spec_transport_status_code(status: PlaybackStatus) -> u32 {
    match status {
        PlaybackStatus::Playing => 3u32,
        PlaybackStatus::Paused => 4u32,
    }
}

/// Translates a status into the raw code the OS status field takes. The raw
/// code exists only at this publish boundary; the core data model never
/// carries it.
pub fn transport_status_code(status: PlaybackStatus) -> (code: u32)
    ensures
        code == spec_transport_status_code(status),
{
    match status {
        PlaybackStatus::Playing => 3,
        PlaybackStatus::Paused => 4,
    }
}

/// A per-tick publish failure: recoverable. The reconciliation loop reports
/// it and retries unconditionally on the next tick; it never aborts a tick.
#[derive(Clone, Copy, PartialEq, Eq, Structural, Debug)]
pub enum PublishError {
    /// The OS rejected the update.
    Rejected,
    /// The session handle became invalid, e.g. torn down concurrently.
    SessionClosed,
}

/// A fatal construction failure: the OS refused to create or bind a
/// transport-controls session. Surfaced to the caller of construction; no
/// partially registered session is left behind.
#[derive(Clone, Copy, PartialEq, Eq, Structural, Debug)]
pub enum RegistrationError {
    /// The supplied window handle was not usable.
    InvalidHandle,
    /// The transport-controls API is unavailable on this host.
    Unsupported,
}

/// The registered OS session, as the reconciliation loop sees it: a display
/// updater for metadata and a setter for the playback status.
///
/// `metadata_attempts` and `status_attempts` are the histories of publish
/// attempts, oldest first. Each publish records its attempt whether or not
/// the OS accepted it, so a caller's contract can state that both surfaces
/// were driven in a tick even when one write failed. Publishing must be safe
/// to repeat every tick with unchanged values.
pub trait MediaSession: Sized {
    /// History of metadata publish attempts, oldest first.
    spec fn metadata_attempts(&self) -> Seq<MetadataView>;

    /// History of status publish attempts, oldest first.
    spec fn status_attempts(&self) -> Seq<PlaybackStatus>;

    /// Writes title, artist and album into the OS display surface and
    /// commits the update.
    fn publish_metadata(&mut self, metadata: &Metadata) -> (r: Result<(), PublishError>)
        ensures
            final(self).metadata_attempts() == old(self).metadata_attempts().push(metadata@),
            final(self).status_attempts() == old(self).status_attempts(),
    ;

    /// Writes the playback status into the OS status field.
    fn publish_status(&mut self, status: PlaybackStatus) -> (r: Result<(), PublishError>)
        ensures
            final(self).status_attempts() == old(self).status_attempts().push(status),
            final(self).metadata_attempts() == old(self).metadata_attempts(),
    ;
}

/// A session that records publish attempts instead of talking to an OS: the
/// display surface of a simulated host, and the harness for tests. Failures
/// can be injected through the two flags to exercise the recoverable-error
/// path; an injected failure still records the attempt, as a rejected OS
/// write still happened.
pub struct RecordingSession {
    /// Metadata publish attempts, oldest first.
    pub metadata_log: Vec<Metadata>,
    /// Status publish attempts, oldest first.
    pub status_log: Vec<PlaybackStatus>,
    /// When set, every metadata publish reports rejection.
    pub fail_metadata: bool,
    /// When set, every status publish reports rejection.
    pub fail_status: bool,
}

impl RecordingSession {
    /// A session with empty histories that accepts every publish.
    pub fn new() -> (s: RecordingSession)
        ensures
            s.metadata_attempts() == Seq::<MetadataView>::empty(),
            s.status_attempts() == Seq::<PlaybackStatus>::empty(),
            !s.fail_metadata,
            !s.fail_status,
    {
        RecordingSession {
            metadata_log: Vec::new(),
            status_log: Vec::new(),
            fail_metadata: false,
            fail_status: false,
        }
    }
}

impl MediaSession for RecordingSession {
    open spec fn metadata_attempts(&self) -> Seq<MetadataView> {
        self.metadata_log@.map_values(|m: Metadata| m@)
    }

    open spec fn status_attempts(&self) -> Seq<PlaybackStatus> {
        self.status_log@
    }

    fn publish_metadata(&mut self, metadata: &Metadata) -> (r: Result<(), PublishError>) {
        self.metadata_log.push(metadata.duplicate());
        proof {
            assert(self.metadata_attempts() =~= old(self).metadata_attempts().push(metadata@));
        }
        if self.fail_metadata {
            Err(PublishError::Rejected)
        } else {
            Ok(())
        }
    }

    fn publish_status(&mut self, status: PlaybackStatus) -> (r: Result<(), PublishError>) {
        self.status_log.push(status);
        if self.fail_status {
            Err(PublishError::Rejected)
        } else {
            Ok(())
        }
    }
}

} // verus!
