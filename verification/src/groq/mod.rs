//! The Groq Whisper transcription client's rules.

pub mod client;
