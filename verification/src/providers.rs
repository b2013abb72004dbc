//! What the providers' HTTP interfaces are asked, and what is read from
//! their answers. Sending the requests is the caller's part.

use crate::error::{http_error, ErrorView, HttpStatus, NlshError};
use crate::text::{chars_of, ends_with, extend_str, has_suffix, str_eq, string_of};
use vstd::prelude::*;

verus! {

/// The address of Gemini's interface for the given model and key.
pub open spec fn gemini_url_of(model: Seq<char>, api_key: Seq<char>) -> Seq<char> {
    "https://generativelanguage.googleapis.com/v1beta/models/"@ + model
        + ":generateContent?key="@ + api_key
}

/// The address to which a request to Gemini goes.
pub fn gemini_url(model: &str, api_key: &str) -> (url: String)
    ensures
        url@ == gemini_url_of(model@, api_key@),
{
    let mut url = chars_of("https://generativelanguage.googleapis.com/v1beta/models/");
    extend_str(&mut url, model);
    extend_str(&mut url, ":generateContent?key=");
    extend_str(&mut url, api_key);
    assert(url@ =~= gemini_url_of(model@, api_key@));
    string_of(&url)
}

/// The address to which a request to Ollama goes.
pub fn ollama_url(base_url: &str) -> (url: String)
    ensures
        url@ == base_url@ + "/api/generate"@,
{
    let mut url = chars_of(base_url);
    extend_str(&mut url, "/api/generate");
    string_of(&url)
}

/// The address of the chat interface below a base address: the version is
/// added to the path unless the base address ends with it.
pub open spec fn openai_url_of(base_url: Seq<char>) -> Seq<char> {
    if ends_with(base_url, "/v1"@) {
        base_url + "/chat/completions"@
    } else {
        base_url + "/v1/chat/completions"@
    }
}

/// The address to which a request to a provider with OpenAI's interface
/// goes.
pub fn openai_url(base_url: &str) -> (url: String)
    ensures
        url@ == openai_url_of(base_url@),
{
    let mut url = chars_of(base_url);
    if has_suffix(&url, &chars_of("/v1")) {
        extend_str(&mut url, "/chat/completions");
    } else {
        extend_str(&mut url, "/v1/chat/completions");
    }
    string_of(&url)
}

/// The value of the header that authorizes a request by a key.
pub fn bearer(api_key: &str) -> (header: String)
    ensures
        header@ == "Bearer "@ + api_key@,
{
    let mut header = chars_of("Bearer ");
    extend_str(&mut header, api_key);
    string_of(&header)
}

/// The content of a candidate in Gemini's answer.
#[derive(Debug, Clone, PartialEq, Eq)]
pub struct GeminiContent {
    /// The texts of the parts, where the content has parts.
    pub parts: Option<Vec<String>>,
}

/// A candidate in Gemini's answer.
#[derive(Debug, Clone, PartialEq, Eq)]
pub struct GeminiCandidate {
    pub content: Option<GeminiContent>,
    pub finish_reason: Option<String>,
}

/// Gemini's answer.
#[derive(Debug, Clone, PartialEq, Eq)]
pub struct GeminiResponse {
    pub candidates: Option<Vec<GeminiCandidate>>,
}

/// What Gemini's answer to a failed request says of the failure.
#[derive(Debug, Clone, PartialEq, Eq)]
pub struct GeminiErrorDetail {
    pub code: u16,
    pub message: String,
}

/// Whether `result` is the text, or the invalid response with the message,
/// that `expected` names.
pub open spec fn text_matches(
    result: Result<String, NlshError>,
    expected: Result<Seq<char>, Seq<char>>,
) -> bool {
    match result {
        Ok(text) => expected == Ok::<Seq<char>, Seq<char>>(text@),
        Err(error) => expected is Err && error@ == ErrorView::InvalidResponse(
            expected->Err_0,
        ),
    }
}

/// The text in the content of a candidate, or what is missing.
pub open spec fn content_text(content: Option<GeminiContent>) -> Result<Seq<char>, Seq<char>> {
    match content {
        None => Err("no content in response"@),
        Some(content) => match content.parts {
            None => Err("no parts in content"@),
            Some(parts) => if parts@.len() == 0 {
                Err("no text in response"@)
            } else {
                Ok(parts@[0]@)
            },
        },
    }
}

/// The text of a candidate, unless Gemini blocked it.
pub open spec fn candidate_text(candidate: GeminiCandidate) -> Result<Seq<char>, Seq<char>> {
    match candidate.finish_reason {
        Some(reason) => if reason@ == "SAFETY"@ {
            Err("content blocked by gemini: safety"@)
        } else if reason@ == "RECITATION"@ {
            Err("content blocked by gemini: recitation"@)
        } else {
            content_text(candidate.content)
        },
        None => content_text(candidate.content),
    }
}

/// The text of Gemini's answer: that of the first part of its first
/// candidate.
pub open spec fn gemini_text_of(response: GeminiResponse) -> Result<Seq<char>, Seq<char>> {
    match response.candidates {
        None => Err("no candidates in response"@),
        Some(candidates) => if candidates@.len() == 0 {
            Err("empty candidates list"@)
        } else {
            candidate_text(candidates@[0])
        },
    }
}

/// An invalid response with the given message.
fn invalid(message: &str) -> (result: Result<String, NlshError>)
    ensures
        result is Err,
        result->Err_0@ == ErrorView::InvalidResponse(message@),
{
    Err(NlshError::InvalidResponse(message.to_owned()))
}

/// Reads the text out of the content of a candidate.
fn text_of_content(content: &Option<GeminiContent>) -> (result: Result<String, NlshError>)
    ensures
        text_matches(result, content_text(*content)),
{
    match content {
        None => invalid("no content in response"),
        Some(content) => match &content.parts {
            None => invalid("no parts in content"),
            Some(parts) => {
                if parts.len() == 0 {
                    invalid("no text in response")
                } else {
                    Ok(parts[0].clone())
                }
            },
        },
    }
}

/// Reads the text out of Gemini's answer.
pub fn gemini_text(response: &GeminiResponse) -> (result: Result<String, NlshError>)
    ensures
        text_matches(result, gemini_text_of(*response)),
{
    match &response.candidates {
        None => invalid("no candidates in response"),
        Some(candidates) => {
            if candidates.len() == 0 {
                return invalid("empty candidates list");
            }
            let candidate = &candidates[0];
            match &candidate.finish_reason {
                Some(reason) => {
                    if str_eq(reason.as_str(), "SAFETY") {
                        invalid("content blocked by gemini: safety")
                    } else if str_eq(reason.as_str(), "RECITATION") {
                        invalid("content blocked by gemini: recitation")
                    } else {
                        text_of_content(&candidate.content)
                    }
                },
                None => text_of_content(&candidate.content),
            }
        },
    }
}

/// The error for a request that Gemini failed: where its answer says of the
/// failure what it was, by the code and the message that the answer gives,
/// with the status of the response where the code is none of a status;
/// else by the status and the text of the response.
pub open spec fn gemini_failure_of(
    status: u16,
    text: Seq<char>,
    detail: Option<GeminiErrorDetail>,
    retry_after: Option<u64>,
) -> ErrorView {
    match detail {
        Some(detail) => http_error(
            if 100 <= detail.code <= 999 {
                detail.code
            } else {
                status
            },
            "gemini"@,
            detail.message@,
            retry_after,
        ),
        None => http_error(status, "gemini"@, text, retry_after),
    }
}

/// Maps a request that Gemini failed to an error. `retry_after` is the
/// delay read from the message that is reported.
pub fn gemini_failure(
    status: HttpStatus,
    text: &str,
    detail: &Option<GeminiErrorDetail>,
    retry_after: Option<u64>,
) -> (error: NlshError)
    ensures
        error@ == gemini_failure_of(status.value(), text@, *detail, retry_after),
{
    match detail {
        Some(detail) => {
            let reported = match HttpStatus::new(detail.code) {
                Some(code) => code,
                None => status,
            };
            NlshError::from_http_status(reported, "gemini", detail.message.as_str(), retry_after)
        },
        None => NlshError::from_http_status(status, "gemini", text, retry_after),
    }
}

/// The text of the first choice in the answer of a provider with OpenAI's
/// interface.
pub fn first_choice(choices: &Vec<String>) -> (result: Result<String, NlshError>)
    ensures
        text_matches(
            result,
            if choices@.len() == 0 {
                Err::<Seq<char>, Seq<char>>("no response from openai"@)
            } else {
                Ok::<Seq<char>, Seq<char>>(choices@[0]@)
            },
        ),
{
    if choices.len() == 0 {
        invalid("no response from openai")
    } else {
        Ok(choices[0].clone())
    }
}

} // verus!
