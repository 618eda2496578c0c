//! Loudness hand-off between an audio-capture callback and a UI redraw loop.
//!
//! Loudness values are carried as IEEE-754 binary32 bit patterns, so that the
//! property "finite and non-negative" is a statement about integers.

pub mod loudness;
pub mod register;
pub mod shared;

pub use loudness::{is_publishable, loudness_to_publish, SEED_LOUDNESS_BITS};
pub use register::LoudnessRegister;
pub use shared::SharedLoudness;
