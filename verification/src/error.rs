use vstd::prelude::*;

verus! {

/// Errors reported by every part of the application.
#[derive(Debug)]
pub enum AppError {
    AudioError(String),
    GroqApiError(String),
    ConfigError(String),
    InputError(String),
    NetworkError(String),
    IoError(String),
}

/// The result type used across the crate.
pub type Result<T> = core::result::Result<T, AppError>;

impl AppError {
    /// The detail text that the error carries.
    pub open spec fn detail(self) -> Seq<char> {
        match self {
            AppError::AudioError(m) => m@,
            AppError::GroqApiError(m) => m@,
            AppError::ConfigError(m) => m@,
            AppError::InputError(m) => m@,
            AppError::NetworkError(m) => m@,
            AppError::IoError(m) => m@,
        }
    }

    /// The prefix that names the kind of error in its message.
    pub open spec fn kind_prefix(self) -> Seq<char> {
        match self {
            AppError::AudioError(_) => "Audio error: "@,
            AppError::GroqApiError(_) => "Groq API error: "@,
            AppError::ConfigError(_) => "Configuration error: "@,
            AppError::InputError(_) => "Input error: "@,
            AppError::NetworkError(_) => "Network error: "@,
            AppError::IoError(_) => "IO error: "@,
        }
    }

    /// The human-readable message of the error.
    pub open spec fn message(self) -> Seq<char> {
        self.kind_prefix() + self.detail()
    }

    /// Renders the error as its message, e.g. `"Audio error: no device"`.
    pub fn to_string(&self) -> (s: String)
        ensures
            s@ == self.message(),
    {
        let (prefix, detail): (&str, &String) = match self {
            AppError::AudioError(m) => ("Audio error: ", m),
            AppError::GroqApiError(m) => ("Groq API error: ", m),
            AppError::ConfigError(m) => ("Configuration error: ", m),
            AppError::InputError(m) => ("Input error: ", m),
            AppError::NetworkError(m) => ("Network error: ", m),
            AppError::IoError(m) => ("IO error: ", m),
        };
        String::from_str(prefix).concat(detail.as_str())
    }
}

} // verus!
