//! Murmure: voice dictation through the Groq Whisper API.
//!
//! This crate holds the verified core of the application: the WAV framing
//! of recorded audio, the recorder's state, the transcription client's
//! retry and response rules, the settings defaults, the API-key store and
//! the input helpers' decisions.

pub mod error;
pub mod types;
pub mod text;
pub mod audio;
pub mod config;
pub mod groq;
pub mod crypto;
pub mod input;
