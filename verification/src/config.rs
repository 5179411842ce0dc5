use vstd::prelude::*;

use crate::error::{AppError, Result};
use crate::types::Settings;

verus! {

/// The directory, under the user's configuration directory, that holds the
/// settings.
pub const APP_DIR_NAME: &'static str = "murmure2";

/// The file, in that directory, that holds the settings as JSON.
pub const CONFIG_FILE_NAME: &'static str = "settings.json";

/// What the settings file gave when it was looked for.
pub enum StoredSettings {
    /// There is no settings file.
    Missing,
    /// The file exists but reading it failed, with the reason.
    Unreadable(String),
    /// The file was read but is not valid settings, with the reason.
    Malformed(String),
    /// The file held these settings.
    Parsed(Settings),
}

/// The store of the user's settings, kept as a JSON file.
#[derive(Debug)]
pub struct SettingsStore;

impl SettingsStore {
    pub fn new() -> (s: SettingsStore) {
        SettingsStore
    }

    /// The settings that loading gives, from what the settings file gave:
    /// the defaults when there is no file, the stored settings when they
    /// parse, an `IoError` when the file cannot be read and a
    /// `ConfigError` when it does not parse.
    pub fn load_from(stored: StoredSettings) -> (r: Result<Settings>)
        ensures
            match stored {
                StoredSettings::Missing => r matches Ok(s) && s.is_default(),
                StoredSettings::Unreadable(e) => r matches Err(AppError::IoError(m)) && m@ == e@,
                StoredSettings::Malformed(e) => r matches Err(AppError::ConfigError(m)) && m@
                    == "Failed to parse settings: "@ + e@,
                StoredSettings::Parsed(s) => r == Ok::<Settings, AppError>(s),
            },
    {
        match stored {
            StoredSettings::Missing => Ok(Settings::default()),
            StoredSettings::Unreadable(e) => Err(AppError::IoError(e)),
            StoredSettings::Malformed(e) => Err(
                AppError::ConfigError(
                    String::from_str("Failed to parse settings: ").concat(e.as_str()),
                ),
            ),
            StoredSettings::Parsed(s) => Ok(s),
        }
    }

    /// The settings that a reset writes to the file and hands back: the
    /// defaults.
    pub fn reset() -> (s: Settings)
        ensures
            s.is_default(),
    {
        Settings::default()
    }

    /// The error for settings that could not be turned into JSON.
    pub fn serialize_error(detail: &str) -> (e: AppError)
        ensures
            e matches AppError::ConfigError(m) && m@ == "Failed to serialize settings: "@ + detail@,
    {
        AppError::ConfigError(String::from_str("Failed to serialize settings: ").concat(detail))
    }

    /// The error when the user has no configuration directory.
    pub fn missing_config_dir_error() -> (e: AppError)
        ensures
            e matches AppError::ConfigError(m) && m@ == "Configuration directory not found"@,
    {
        AppError::ConfigError(String::from_str("Configuration directory not found"))
    }
}

} // verus!
