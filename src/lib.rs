//! Verified core of a desktop audio player: equalizer presets, the versioned
//! configuration cell shared with the audio thread, the spectrum analyzer's
//! bookkeeping, the play queue, key commands and track-title cleanup.

pub mod equalizer;
pub mod channel;
pub mod spectrum;
pub mod title;
pub mod queue;
pub mod text;
pub mod library;
pub mod controls;
