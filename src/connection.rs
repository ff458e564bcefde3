use vstd::prelude::*;
use vstd::string::StringExecFns;
use crate::domain::AppSettings;
use crate::status::{is_success, status_line, status_text};
use crate::text::{blank, is_blank, trim_slashes, trim_trailing_slashes};

verus! {

/// Refuses settings that cannot reach a provider: the API key, then the
/// base URL, then the model must not be blank.
pub fn check_connection_settings(settings: &AppSettings) -> (r: Result<(), String>)
    ensures
        r is Ok <==> !is_blank(settings.api_key@) && !is_blank(settings.base_url@) && !is_blank(
            settings.model@,
        ),
        r matches Err(e) ==> {
            if is_blank(settings.api_key@) {
                e@ == "Missing API key"@
            } else if is_blank(settings.base_url@) {
                e@ == "Missing base URL"@
            } else {
                e@ == "Missing model"@
            }
        },
{
    if blank(settings.api_key.as_str()) {
        return Err(String::from_str("Missing API key"));
    }
    if blank(settings.base_url.as_str()) {
        return Err(String::from_str("Missing base URL"));
    }
    if blank(settings.model.as_str()) {
        return Err(String::from_str("Missing model"));
    }
    Ok(())
}

/// The verdict on the provider's answer to a model list request.
pub open spec fn verdict(status: u16, body: Seq<char>) -> Result<Seq<char>, Seq<char>> {
    if status == 401 {
        Err("Authentication failed — check your API key."@)
    } else if status == 403 {
        Err("Access denied — your API key may lack permissions."@)
    } else if !is_success(status) {
        Err("API returned "@ + status_line(status) + ": "@ + body)
    } else {
        Ok("Connection successful — API key is valid."@)
    }
}

pub fn connection_verdict(status: u16, body: &str) -> (r: Result<String, String>)
    requires
        100 <= status <= 999,
    ensures
        match (r, verdict(status, body@)) {
            (Ok(m), Ok(n)) => m@ == n,
            (Err(m), Err(n)) => m@ == n,
            _ => false,
        },
{
    if status == 401 {
        Err(String::from_str("Authentication failed — check your API key."))
    } else if status == 403 {
        Err(String::from_str("Access denied — your API key may lack permissions."))
    } else if !(200 <= status && status <= 299) {
        Err(String::from_str("API returned ").concat(status_text(status).as_str()).concat(": ").concat(body))
    } else {
        Ok(String::from_str("Connection successful — API key is valid."))
    }
}

/// The message for a request that got no response: a time-out, a failed
/// connection to the trimmed base URL, or another failure with its detail.
pub fn request_failure_message(timed_out: bool, connect_failed: bool, base_url: &str, detail: &str) -> (r:
    String)
    ensures
        timed_out ==> r@ == "Connection timed out — check your base URL."@,
        !timed_out && connect_failed ==> r@ == "Connection failed — could not reach "@ + trim_slashes(
            base_url@,
        ),
        !timed_out && !connect_failed ==> r@ == "Request failed: "@ + detail@,
{
    if timed_out {
        String::from_str("Connection timed out — check your base URL.")
    } else if connect_failed {
        String::from_str("Connection failed — could not reach ").concat(trim_trailing_slashes(base_url))
    } else {
        String::from_str("Request failed: ").concat(detail)
    }
}

/// The chat completions endpoint of a provider base URL.
pub fn chat_completions_url(base_url: &str) -> (r: String)
    ensures
        r@ == trim_slashes(base_url@) + "/chat/completions"@,
{
    String::from_str(trim_trailing_slashes(base_url)).concat("/chat/completions")
}

/// The error for a formatting response that is not a success.
pub fn format_api_error(status: u16, body: &str) -> (r: String)
    requires
        100 <= status <= 999,
    ensures
        r@ == "Format API error "@ + status_line(status) + ": "@ + body@,
{
    String::from_str("Format API error ").concat(status_text(status).as_str()).concat(": ").concat(body)
}

} // verus!
