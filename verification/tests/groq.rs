use murmure2::crypto::{has_api_key, keyring_account, keyring_failure, retrieve_api_key};
use murmure2::error::AppError;
use murmure2::groq::client::{
    attempt_result, audio_upload_part, is_success_status, parse_error, ResponseBody, part_error, send_error, status_error,
    transcription_from_text, GroqClient, RetryState, TranscribeStep, MAX_RETRIES,
};
use murmure2::text::decimal_string;

fn groq_message(e: AppError) -> String {
    match e {
        AppError::GroqApiError(m) => m,
        _ => panic!("Expected GroqApiError"),
    }
}

#[test]
fn test_client_creation() {
    let client = GroqClient::new("test-api-key".to_string());
    assert_eq!(client.api_key(), "test-api-key");
}

#[test]
fn authorization_header_is_bearer() {
    let client = GroqClient::new("test-key".to_string());
    assert_eq!(client.authorization_header(), "Bearer test-key");
}

#[test]
fn success_statuses() {
    assert!(is_success_status(200));
    assert!(is_success_status(299));
    assert!(!is_success_status(199));
    assert!(!is_success_status(300));
    assert!(!is_success_status(429));
}

#[test]
fn status_errors() {
    assert_eq!(groq_message(status_error(429, "x")), "Rate limit exceeded");
    assert_eq!(groq_message(status_error(401, "x")), "Invalid API key");
    assert_eq!(groq_message(status_error(400, "no file")), "Bad request: no file");
    assert_eq!(groq_message(status_error(500, "x")), "Server error");
    assert_eq!(groq_message(status_error(599, "x")), "Server error");
    assert_eq!(groq_message(status_error(404, "missing")), "API error (404): missing");
    assert_eq!(groq_message(status_error(600, "odd")), "API error (600): odd");
}

#[test]
fn send_errors() {
    assert_eq!(groq_message(send_error(true, true, "x")), "Request timeout");
    assert_eq!(groq_message(send_error(false, true, "x")), "Connection error");
    assert_eq!(groq_message(send_error(false, false, "dns")), "Network error: dns");
    assert_eq!(groq_message(part_error("mime")), "Failed to create multipart part: mime");
    assert_eq!(groq_message(parse_error("eof")), "Failed to parse response: eof");
}

#[test]
fn transcription_result_from_text() {
    let r = transcription_from_text("Hello world".to_string());
    assert_eq!(r.text, "Hello world");
    assert_eq!(r.duration_ms, 0);
    assert!(r.language.is_none());
}

#[test]
fn retries_back_off_then_give_up() {
    let mut state = RetryState::new();
    let fail = || Err(AppError::GroqApiError("Server error".to_string()));
    assert!(matches!(state.on_attempt(fail()), TranscribeStep::RetryAfter(1)));
    assert!(matches!(state.on_attempt(fail()), TranscribeStep::RetryAfter(2)));
    match state.on_attempt(Err(AppError::GroqApiError("last".to_string()))) {
        TranscribeStep::Finish(Err(e)) => assert_eq!(groq_message(e), "last"),
        _ => panic!("Expected the last error"),
    }
    assert_eq!(MAX_RETRIES, 3);
}

#[test]
fn success_finishes_at_once() {
    let mut state = RetryState::new();
    assert!(matches!(
        state.on_attempt(Err(AppError::GroqApiError("x".to_string()))),
        TranscribeStep::RetryAfter(1)
    ));
    match state.on_attempt(Ok(transcription_from_text("ok".to_string()))) {
        TranscribeStep::Finish(Ok(r)) => assert_eq!(r.text, "ok"),
        _ => panic!("Expected success"),
    }
}

#[test]
fn decimal_notation() {
    assert_eq!(decimal_string(0), "0");
    assert_eq!(decimal_string(7), "7");
    assert_eq!(decimal_string(10), "10");
    assert_eq!(decimal_string(26214400), "26214400");
    assert_eq!(decimal_string(u128::MAX), u128::MAX.to_string());
}

#[test]
fn keyring_outcomes_are_reported() {
    let _ = has_api_key();
    match retrieve_api_key() {
        Ok(_) => {}
        Err(AppError::ConfigError(m)) => assert!(m.starts_with("Failed to ")),
        Err(_) => panic!("Expected ConfigError"),
    }
}

#[test]
fn keyring_failure_message() {
    match keyring_failure("store API key", "No matching entry found in secure storage".to_string()) {
        AppError::ConfigError(m) => assert_eq!(
            m,
            "Failed to store API key: No matching entry found in secure storage"
        ),
        _ => panic!("Expected ConfigError"),
    }
}

#[test]
fn attempt_results() {
    match attempt_result(200, ResponseBody::Transcript(Ok("Hello world".to_string()))) {
        Ok(r) => {
            assert_eq!(r.text, "Hello world");
            assert_eq!(r.duration_ms, 0);
            assert!(r.language.is_none());
        }
        Err(_) => panic!("Expected success"),
    }
    let e = attempt_result(200, ResponseBody::Transcript(Err("missing field".to_string())));
    assert_eq!(groq_message(e.unwrap_err()), "Failed to parse response: missing field");
    let e = attempt_result(429, ResponseBody::ErrorText(None));
    assert_eq!(groq_message(e.unwrap_err()), "Rate limit exceeded");
    let e = attempt_result(400, ResponseBody::ErrorText(Some("bad file".to_string())));
    assert_eq!(groq_message(e.unwrap_err()), "Bad request: bad file");
    let e = attempt_result(418, ResponseBody::ErrorText(None));
    assert_eq!(groq_message(e.unwrap_err()), "API error (418): Unknown error");
}

#[test]
fn keyring_account_names() {
    assert_eq!(keyring_account(), ("murmure2", "api_key"));
}

#[test]
fn the_audio_part_is_built() {
    assert!(audio_upload_part(vec![0u8; 1024]).is_ok());
}
