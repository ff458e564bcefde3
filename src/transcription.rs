use vstd::prelude::*;
use vstd::string::StringExecFns;
use crate::status::{status_line, status_text};
use crate::text::{
    blank, contains_any_folded, ends_with, ends_with_exact, folded, is_blank, occurs_any,
    same_text, starts_with, starts_with_folded, trim_slashes, trim_trailing_slashes,
};

verus! {

/// The transcription endpoint for a provider base URL: trailing slashes are
/// dropped, and `/audio/transcriptions` is appended unless the URL already
/// ends with it.
pub open spec fn transcription_url(base: Seq<char>) -> Seq<char> {
    let t = trim_slashes(base);
    if ends_with(t, "/audio/transcriptions"@) {
        t
    } else {
        t + "/audio/transcriptions"@
    }
}

pub fn build_transcription_url(base_url: &str) -> (r: String)
    ensures
        r@ == transcription_url(base_url@),
{
    let trimmed = trim_trailing_slashes(base_url);
    if ends_with_exact(trimmed, "/audio/transcriptions") {
        String::from_str(trimmed)
    } else {
        String::from_str(trimmed).concat("/audio/transcriptions")
    }
}

/// Whether the provider takes a prompt: Groq and custom providers always,
/// OpenAI only for models whose name starts with `whisper` in any ASCII case.
pub open spec fn prompt_supported(provider: Seq<char>, model: Seq<char>) -> bool {
    if provider == "groq"@ {
        true
    } else if provider == "openai"@ {
        starts_with(folded(model), folded("whisper"@))
    } else {
        provider == "custom"@
    }
}

pub fn supports_prompt(provider: &str, model: &str) -> (r: bool)
    ensures
        r == prompt_supported(provider@, model@),
{
    if same_text(provider, "groq") {
        true
    } else if same_text(provider, "openai") {
        starts_with_folded(model, "whisper")
    } else {
        same_text(provider, "custom")
    }
}

/// The prompt that goes with a request: the given one, if the provider takes
/// prompts and it is not blank.
pub fn prompt_to_send<'a>(provider: &str, model: &str, prompt: Option<&'a str>) -> (r: Option<&'a str>)
    ensures
        r == (if prompt matches Some(p) && prompt_supported(provider@, model@) && !is_blank(p@) {
            prompt
        } else {
            None
        }),
{
    match prompt {
        Some(p) => {
            if supports_prompt(provider, model) && !blank(p) {
                Some(p)
            } else {
                None
            }
        },
        None => None,
    }
}

/// Refuses a blank API key.
pub fn require_api_key(api_key: &str) -> (r: Result<(), String>)
    ensures
        r is Ok <==> !is_blank(api_key@),
        r matches Err(e) ==> e@ == "Missing API key"@,
{
    if blank(api_key) {
        Err(String::from_str("Missing API key"))
    } else {
        Ok(())
    }
}

/// A failed transcription request: the HTTP status and body of a response
/// that was not a success, or a transport message and no status.
#[derive(Debug)]
pub struct ApiError {
    pub status: Option<u16>,
    pub body: String,
}

impl ApiError {
    pub fn api(status: u16, body: String) -> (r: ApiError)
        ensures
            r.status == Some(status),
            r.body == body,
    {
        ApiError { status: Some(status), body }
    }

    /// The error as text: `API error <status>: <body>` for a response,
    /// the bare message for a transport failure.
    pub fn describe(&self) -> (r: String)
        requires
            self.status matches Some(c) ==> 100 <= c <= 999,
        ensures
            r@ == api_error_text(*self),
    {
        match self.status {
            Some(code) => String::from_str("API error ").concat(status_text(code).as_str()).concat(": ").concat(
                self.body.as_str(),
            ),
            None => self.body.clone(),
        }
    }

    pub fn transport(message: String) -> (r: ApiError)
        ensures
            r.status is None,
            r.body == message,
    {
        ApiError { status: None, body: message }
    }
}

pub open spec fn api_error_text(e: ApiError) -> Seq<char> {
    match e.status {
        Some(code) => "API error "@ + status_line(code) + ": "@ + e.body@,
        None => e.body@,
    }
}

/// The statuses with which a provider rejects a request's parameters.
pub open spec fn parameter_rejection(status: Option<u16>) -> bool {
    status matches Some(s) && (s == 400 || s == 404 || s == 415 || s == 422)
}

pub open spec fn verbose_complaints() -> Seq<&'static str> {
    seq!["response_format", "verbose", "unknown parameter", "not allowed", "unexpected field"]
}

pub open spec fn prompt_complaints() -> Seq<&'static str> {
    seq!["prompt", "unknown parameter", "not allowed", "unexpected field"]
}

fn rejected_parameter(status: Option<u16>) -> (r: bool)
    ensures
        r == parameter_rejection(status),
{
    match status {
        Some(s) => s == 400 || s == 404 || s == 415 || s == 422,
        None => false,
    }
}

/// Whether the provider rejected the verbose response format, so that the
/// request is worth repeating without it.
pub fn should_retry_without_verbose(error: &ApiError) -> (r: bool)
    ensures
        r == (parameter_rejection(error.status) && occurs_any(error.body@, verbose_complaints())),
{
    if !rejected_parameter(error.status) {
        return false;
    }
    let complaints = vec!["response_format", "verbose", "unknown parameter", "not allowed", "unexpected field"];
    assert(complaints@ == verbose_complaints());
    contains_any_folded(error.body.as_str(), &complaints)
}

/// Whether the provider rejected the prompt, so that the request is worth
/// repeating without it.
pub fn should_retry_without_prompt(error: &ApiError) -> (r: bool)
    ensures
        r == (parameter_rejection(error.status) && occurs_any(error.body@, prompt_complaints())),
{
    if !rejected_parameter(error.status) {
        return false;
    }
    let complaints = vec!["prompt", "unknown parameter", "not allowed", "unexpected field"];
    assert(complaints@ == prompt_complaints());
    contains_any_folded(error.body.as_str(), &complaints)
}

/// The shape of one transcription request.
#[derive(Clone, Copy, Debug, PartialEq, Eq, Structural)]
pub struct Attempt {
    /// The prompt is sent.
    pub with_prompt: bool,
    /// The verbose response format is asked for.
    pub verbose: bool,
}

/// The first request: verbose, with the prompt when there is one to send.
pub fn first_attempt(with_prompt: bool) -> (r: Attempt)
    ensures
        r == (Attempt { with_prompt, verbose: true }),
{
    Attempt { with_prompt, verbose: true }
}

/// The one retry after a failed first request, if any: without the prompt
/// when the provider rejected it, else without the verbose format when the
/// provider rejected that.
pub open spec fn retry_of(first: Attempt, error: ApiError) -> Option<Attempt> {
    if first.with_prompt && parameter_rejection(error.status) && occurs_any(error.body@, prompt_complaints()) {
        Some(Attempt { with_prompt: false, verbose: true })
    } else if parameter_rejection(error.status) && occurs_any(error.body@, verbose_complaints()) {
        Some(Attempt { with_prompt: first.with_prompt, verbose: false })
    } else {
        None
    }
}

pub fn retry_after(first: Attempt, error: &ApiError) -> (r: Option<Attempt>)
    ensures
        r == retry_of(first, *error),
{
    if first.with_prompt && should_retry_without_prompt(error) {
        Some(Attempt { with_prompt: false, verbose: true })
    } else if should_retry_without_verbose(error) {
        Some(Attempt { with_prompt: first.with_prompt, verbose: false })
    } else {
        None
    }
}

} // verus!
