use dikt::transcription::{
    build_transcription_url, first_attempt, prompt_to_send, require_api_key, retry_after,
    should_retry_without_prompt, should_retry_without_verbose, supports_prompt, ApiError, Attempt,
};

#[test]
fn url_builder_appends_endpoint() {
    assert_eq!(
        build_transcription_url("https://api.openai.com/v1"),
        "https://api.openai.com/v1/audio/transcriptions"
    );
    assert_eq!(
        build_transcription_url("https://api.openai.com/v1/"),
        "https://api.openai.com/v1/audio/transcriptions"
    );
}

#[test]
fn url_builder_accepts_full_endpoint() {
    assert_eq!(
        build_transcription_url("https://api.openai.com/v1/audio/transcriptions"),
        "https://api.openai.com/v1/audio/transcriptions"
    );
    assert_eq!(
        build_transcription_url("https://api.openai.com/v1/audio/transcriptions/"),
        "https://api.openai.com/v1/audio/transcriptions"
    );
}

#[test]
fn prompt_support_by_provider_and_model() {
    assert!(supports_prompt("groq", "whisper-large-v3"));
    assert!(supports_prompt("openai", "whisper-1"));
    assert!(!supports_prompt("openai", "gpt-4o-transcribe"));
    assert!(supports_prompt("custom", "anything"));
}

#[test]
fn prompt_support_is_exact_on_provider() {
    assert!(supports_prompt("openai", "Whisper-1"));
    assert!(!supports_prompt("OpenAI", "whisper-1"));
    assert!(!supports_prompt("other", "whisper-1"));
}

#[test]
fn prompt_is_sent_only_when_supported_and_not_blank() {
    assert_eq!(prompt_to_send("groq", "m", Some("names: Dikt")), Some("names: Dikt"));
    assert_eq!(prompt_to_send("groq", "m", Some(" \t\n")), None);
    assert_eq!(prompt_to_send("openai", "gpt-4o-transcribe", Some("x")), None);
    assert_eq!(prompt_to_send("custom", "m", None), None);
}

#[test]
fn blank_api_key_is_refused() {
    assert_eq!(require_api_key("  "), Err("Missing API key".to_string()));
    assert_eq!(require_api_key(""), Err("Missing API key".to_string()));
    assert_eq!(require_api_key("sk-1"), Ok(()));
}

#[test]
fn retry_predicates_need_a_parameter_status() {
    let e = ApiError::api(400, "Unknown parameter: 'response_format'".to_string());
    assert!(should_retry_without_verbose(&e));
    assert!(should_retry_without_prompt(&e));
    let e = ApiError::api(500, "response_format".to_string());
    assert!(!should_retry_without_verbose(&e));
    let e = ApiError::transport("verbose".to_string());
    assert!(!should_retry_without_verbose(&e));
    let e = ApiError::api(422, "PROMPT too long".to_string());
    assert!(should_retry_without_prompt(&e));
    assert!(!should_retry_without_verbose(&e));
}

#[test]
fn retry_drops_prompt_before_verbose() {
    let first = first_attempt(true);
    assert_eq!(first, Attempt { with_prompt: true, verbose: true });
    let e = ApiError::api(400, "unexpected field".to_string());
    assert_eq!(retry_after(first, &e), Some(Attempt { with_prompt: false, verbose: true }));
    let e = ApiError::api(415, "verbose_json unsupported".to_string());
    assert_eq!(retry_after(first, &e), Some(Attempt { with_prompt: true, verbose: false }));
    let plain = first_attempt(false);
    assert_eq!(retry_after(plain, &e), Some(Attempt { with_prompt: false, verbose: false }));
    let e = ApiError::api(401, "bad key".to_string());
    assert_eq!(retry_after(plain, &e), None);
}

#[test]
fn api_error_text() {
    assert_eq!(ApiError::api(400, "bad".to_string()).describe(), "API error 400 Bad Request: bad");
    assert_eq!(ApiError::transport("timed out".to_string()).describe(), "timed out");
}
