//! A music library and the playback actor that drives it.
//!
//! The crate holds the rules of the system as plain, verified functions:
//! how a catalog is built and queried, how the playback state answers each
//! transport command, and how a terminal client moves through the catalog.
//! Reading the clock, touching the audio device, the network and the
//! terminal are left to the program around it, which hands in what it read
//! and carries out what these functions decide.

pub mod api;
pub mod client;
pub mod layout;
pub mod library;
pub mod playback;
pub mod scan;
pub mod text;
pub mod track;
pub mod urls;
pub mod volume;

pub use crate::api::{PlayRequest, SeekRequest, VolumeRequest};
pub use crate::library::Library;
pub use crate::playback::{AudioCommand, PlaybackState, PlaybackStatus};
pub use crate::track::Track;
pub use crate::volume::Volume;
