use dikt::models::{is_chat_model, models_api_error, models_url, select_chat_models, text_less};

#[test]
fn chat_model_filter_keeps_text_models() {
    assert!(is_chat_model("gpt-4o-mini"));
    assert!(is_chat_model("llama-3.3-70b-versatile"));
}

#[test]
fn chat_model_filter_excludes_audio_and_embedding_models() {
    assert!(!is_chat_model("whisper-large-v3"));
    assert!(!is_chat_model("gpt-4o-mini-transcribe"));
    assert!(!is_chat_model("text-embedding-3-large"));
}

#[test]
fn chat_model_filter_ignores_ascii_case() {
    assert!(!is_chat_model("Whisper-Large"));
    assert!(!is_chat_model("DALL-E-3"));
    assert!(is_chat_model("GPT-4O"));
}

#[test]
fn selection_sorts_dedups_and_filters() {
    let ids = vec![
        "llama-3".to_string(),
        "gpt-4o".to_string(),
        "whisper-1".to_string(),
        "gpt-4o".to_string(),
        "mistral-large".to_string(),
        "tts-1".to_string(),
    ];
    let models = select_chat_models(&ids).unwrap();
    assert_eq!(models, vec!["gpt-4o".to_string(), "llama-3".to_string(), "mistral-large".to_string()]);
}

#[test]
fn selection_without_chat_models_is_an_error() {
    let ids = vec!["whisper-1".to_string(), "text-embedding-3-small".to_string()];
    assert_eq!(
        select_chat_models(&ids),
        Err("No chat-capable models returned by provider".to_string())
    );
    assert_eq!(
        select_chat_models(&Vec::new()),
        Err("No chat-capable models returned by provider".to_string())
    );
}

#[test]
fn text_order_is_byte_order() {
    assert!(text_less("a", "b"));
    assert!(text_less("ab", "abc"));
    assert!(!text_less("abc", "ab"));
    assert!(!text_less("same", "same"));
    assert!(text_less("Z", "a"));
    assert!(text_less("z", "é"));
}

#[test]
fn models_url_drops_trailing_slashes() {
    assert_eq!(models_url("https://api.groq.com/openai/v1//"), "https://api.groq.com/openai/v1/models");
    assert_eq!(models_url("http://localhost:8080"), "http://localhost:8080/models");
}

#[test]
fn models_error_names_the_status() {
    assert_eq!(models_api_error(404, "nope"), "Models API error 404 Not Found: nope");
    assert_eq!(models_api_error(599, ""), "Models API error 599 <unknown status code>: ");
}
