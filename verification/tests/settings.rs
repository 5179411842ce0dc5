use murmure2::config::{SettingsStore, StoredSettings, APP_DIR_NAME, CONFIG_FILE_NAME};
use murmure2::error::AppError;
use murmure2::types::{AppState, OverlayPosition, Settings};

fn assert_default(s: &Settings) {
    assert_eq!(s.shortcut, "Ctrl+Space");
    assert_eq!(s.language, "auto");
    assert_eq!(s.overlay_position.x, 0);
    assert_eq!(s.overlay_position.y, 0);
    assert!(!s.setup_completed);
}

#[test]
fn default_settings() {
    assert_default(&Settings::default());
}

#[test]
fn reset_gives_the_defaults() {
    let _store = SettingsStore::new();
    assert_default(&SettingsStore::reset());
}

#[test]
fn load_without_a_file_gives_the_defaults() {
    assert_default(&SettingsStore::load_from(StoredSettings::Missing).unwrap());
}

#[test]
fn load_gives_the_stored_settings() {
    let stored = Settings {
        shortcut: "Alt+Space".to_string(),
        language: "fr".to_string(),
        overlay_position: OverlayPosition { x: 10, y: -4 },
        setup_completed: true,
    };
    let s = SettingsStore::load_from(StoredSettings::Parsed(stored)).unwrap();
    assert_eq!(s.shortcut, "Alt+Space");
    assert_eq!(s.language, "fr");
    assert_eq!(s.overlay_position.x, 10);
    assert_eq!(s.overlay_position.y, -4);
    assert!(s.setup_completed);
}

#[test]
fn load_errors() {
    match SettingsStore::load_from(StoredSettings::Unreadable("denied".to_string())) {
        Err(AppError::IoError(m)) => assert_eq!(m, "denied"),
        _ => panic!("Expected IoError"),
    }
    match SettingsStore::load_from(StoredSettings::Malformed("EOF".to_string())) {
        Err(e) => {
            assert!(matches!(e, AppError::ConfigError(_)));
            assert_eq!(e.to_string(), "Configuration error: Failed to parse settings: EOF");
        }
        _ => panic!("Expected ConfigError"),
    }
}

#[test]
fn store_errors() {
    match SettingsStore::serialize_error("bad") {
        AppError::ConfigError(m) => assert_eq!(m, "Failed to serialize settings: bad"),
        _ => panic!("Expected ConfigError"),
    }
    match SettingsStore::missing_config_dir_error() {
        AppError::ConfigError(m) => assert_eq!(m, "Configuration directory not found"),
        _ => panic!("Expected ConfigError"),
    }
    assert_eq!(APP_DIR_NAME, "murmure2");
    assert_eq!(CONFIG_FILE_NAME, "settings.json");
}

#[test]
fn error_messages() {
    let cases = vec![
        (AppError::AudioError("a".to_string()), "Audio error: a"),
        (AppError::GroqApiError("b".to_string()), "Groq API error: b"),
        (AppError::ConfigError("c".to_string()), "Configuration error: c"),
        (AppError::InputError("d".to_string()), "Input error: d"),
        (AppError::NetworkError("e".to_string()), "Network error: e"),
        (AppError::IoError("f".to_string()), "IO error: f"),
    ];
    for (e, m) in cases {
        assert_eq!(e.to_string(), m);
    }
}

#[test]
fn app_states() {
    let states = vec![
        AppState::Idle,
        AppState::Recording { duration_ms: 5 },
        AppState::Processing,
        AppState::Success { text: "hi".to_string() },
        AppState::Error { message: "no".to_string() },
    ];
    assert_eq!(states.len(), 5);
    assert!(matches!(states[1], AppState::Recording { duration_ms: 5 }));
}
