//! Recording, playback and transcription engine of a voice-memo application:
//! the catalog of recordings, the decisions of the three audio pipelines, and
//! the worker handles through which they are commanded.

pub mod audio;
pub mod background;
pub mod controls;
pub mod ids;
pub mod sharedref;
