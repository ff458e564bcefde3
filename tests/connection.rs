use dikt::accessibility::wrap_accessibility_error;
use dikt::connection::{
    chat_completions_url, check_connection_settings, connection_verdict, format_api_error,
    request_failure_message,
};
use dikt::domain::AppSettings;
use dikt::status::status_text;

fn settings(key: &str, url: &str, model: &str) -> AppSettings {
    AppSettings {
        base_url: url.to_string(),
        api_key: key.to_string(),
        model: model.to_string(),
        provider: "openai".to_string(),
    }
}

#[test]
fn settings_are_checked_in_order() {
    assert_eq!(check_connection_settings(&settings(" ", "", "")), Err("Missing API key".to_string()));
    assert_eq!(check_connection_settings(&settings("k", "\t", "")), Err("Missing base URL".to_string()));
    assert_eq!(check_connection_settings(&settings("k", "u", "")), Err("Missing model".to_string()));
    assert_eq!(check_connection_settings(&settings("k", "u", "m")), Ok(()));
}

#[test]
fn verdict_by_status() {
    assert_eq!(
        connection_verdict(401, "x"),
        Err("Authentication failed — check your API key.".to_string())
    );
    assert_eq!(
        connection_verdict(403, "x"),
        Err("Access denied — your API key may lack permissions.".to_string())
    );
    assert_eq!(
        connection_verdict(500, "boom"),
        Err("API returned 500 Internal Server Error: boom".to_string())
    );
    assert_eq!(
        connection_verdict(200, ""),
        Ok("Connection successful — API key is valid.".to_string())
    );
}

#[test]
fn failure_messages() {
    assert_eq!(
        request_failure_message(true, true, "u", "d"),
        "Connection timed out — check your base URL."
    );
    assert_eq!(
        request_failure_message(false, true, "https://x.io/v1/", "d"),
        "Connection failed — could not reach https://x.io/v1"
    );
    assert_eq!(request_failure_message(false, false, "u", "dns"), "Request failed: dns");
}

#[test]
fn format_endpoint_and_error() {
    assert_eq!(chat_completions_url("https://x.io/v1/"), "https://x.io/v1/chat/completions");
    assert_eq!(format_api_error(429, "slow"), "Format API error 429 Too Many Requests: slow");
}

#[test]
fn status_text_matches_http_display() {
    assert_eq!(status_text(200), "200 OK");
    assert_eq!(status_text(404), "404 Not Found");
    assert_eq!(status_text(999), "999 <unknown status code>");
}

#[test]
fn accessibility_errors_are_explained() {
    let advice = "Accessibility permission required. Grant access to Dikt in System Settings > Privacy & Security > Accessibility, then restart the app.";
    assert_eq!(wrap_accessibility_error("Operation NOT PERMITTED".to_string()), advice);
    assert_eq!(wrap_accessibility_error("process is not trusted".to_string()), advice);
    assert_eq!(wrap_accessibility_error("no display".to_string()), "no display");
}
