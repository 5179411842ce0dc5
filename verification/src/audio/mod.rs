//! Audio capture state and WAV encoding.

pub mod encoder;
pub mod recorder;
