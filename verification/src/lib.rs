//! A bridge between a host operating system's native media transport controls
//! (lock screen, hardware media keys) and an application's player.
//!
//! The OS delivers button presses asynchronously on a thread it owns; the
//! application consumes them on its own thread by polling. The core of the
//! library is the event queue with its non-blocking drain policy, the button
//! translator, and the per-tick reconciliation loop that applies drained
//! events to the player and then publishes the player's resulting state back
//! to the OS display surface.

pub mod bridge;
pub mod event;
pub mod player;
pub mod queue;
pub mod session;

pub use bridge::{TickReport, WindowsMediaControls};
pub use event::MediaControlEvent;
pub use player::{MediaPlayer, Metadata, SimPlayer};
pub use queue::EventQueue;
pub use session::{MediaSession, PlaybackStatus, PublishError, RecordingSession, RegistrationError};
