use vstd::prelude::*;

verus! {

/// How each recorded sample is stored in the encoded audio.
#[derive(Debug, Clone, Copy, PartialEq, Eq, Structural)]
pub enum SampleFormat {
    F32,
    I16,
}

/// Audio capture and encoding parameters.
#[derive(Debug, Clone, Copy)]
pub struct AudioConfig {
    pub sample_rate: u32,
    pub channels: u16,
    pub sample_format: SampleFormat,
}

/// The outcome of a transcription request.
#[derive(Debug, Clone)]
pub struct TranscriptionResult {
    pub text: String,
    pub duration_ms: u64,
    pub language: Option<String>,
}

/// The state that the user interface shows.
#[derive(Debug, Clone, PartialEq)]
pub enum AppState {
    Idle,
    Recording { duration_ms: u64 },
    Processing,
    Success { text: String },
    Error { message: String },
}

/// Where the overlay window stands on screen.
#[derive(Debug, Clone, Copy)]
pub struct OverlayPosition {
    pub x: i32,
    pub y: i32,
}

/// The user's settings.
#[derive(Debug, Clone)]
pub struct Settings {
    pub shortcut: String,
    pub language: String,
    pub overlay_position: OverlayPosition,
    pub setup_completed: bool,
}

impl Settings {
    /// The settings in force before the user changes anything.
    pub open spec fn is_default(self) -> bool {
        &&& self.shortcut@ == "Ctrl+Space"@
        &&& self.language@ == "auto"@
        &&& self.overlay_position.x == 0
        &&& self.overlay_position.y == 0
        &&& !self.setup_completed
    }
}

impl Default for Settings {
    /// Shortcut `Ctrl+Space`, automatic language, overlay at the origin,
    /// setup not completed.
    fn default() -> (s: Self)
        ensures
            s.is_default(),
    {
        Settings {
            shortcut: String::from_str("Ctrl+Space"),
            language: String::from_str("auto"),
            overlay_position: OverlayPosition { x: 0, y: 0 },
            setup_completed: false,
        }
    }
}

} // verus!
