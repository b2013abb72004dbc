//! The errors of the assistant, and how failures of a provider's HTTP
//! interface map to them.

use crate::text::{
    after_first, before_first, chars_of, contains, decimal, decimal_digits, extend_chars,
    extend_str, includes, str_contains, string_of, take_after, take_before,
};
use vstd::prelude::*;

verus! {

/// Why a request to a provider, or the setup before it, failed.
#[derive(Debug, Clone, PartialEq, Eq)]
pub enum NlshError {
    ConnectionFailed { provider: String, message: String },
    InvalidApiKey,
    AuthenticationFailed { message: String },
    ModelNotFound(String),
    RateLimitExceeded { retry_after: Option<u64> },
    ServerError { provider: String, message: String },
    Timeout { seconds: u64 },
    InvalidResponse(String),
    NetworkError(String),
    ConfigError(String),
    /// An input or output operation failed; the field holds its message.
    IoError(String),
}

/// The model of an error: strings as character sequences.
pub enum ErrorView {
    ConnectionFailed { provider: Seq<char>, message: Seq<char> },
    InvalidApiKey,
    AuthenticationFailed { message: Seq<char> },
    ModelNotFound(Seq<char>),
    RateLimitExceeded { retry_after: Option<u64> },
    ServerError { provider: Seq<char>, message: Seq<char> },
    Timeout { seconds: u64 },
    InvalidResponse(Seq<char>),
    NetworkError(Seq<char>),
    ConfigError(Seq<char>),
    IoError(Seq<char>),
}

impl View for NlshError {
    type V = ErrorView;

    open spec fn view(&self) -> ErrorView {
        match self {
            NlshError::ConnectionFailed { provider, message } => ErrorView::ConnectionFailed {
                provider: provider@,
                message: message@,
            },
            NlshError::InvalidApiKey => ErrorView::InvalidApiKey,
            NlshError::AuthenticationFailed { message } => ErrorView::AuthenticationFailed {
                message: message@,
            },
            NlshError::ModelNotFound(text) => ErrorView::ModelNotFound(text@),
            NlshError::RateLimitExceeded { retry_after } => ErrorView::RateLimitExceeded {
                retry_after: *retry_after,
            },
            NlshError::ServerError { provider, message } => ErrorView::ServerError {
                provider: provider@,
                message: message@,
            },
            NlshError::Timeout { seconds } => ErrorView::Timeout { seconds: *seconds },
            NlshError::InvalidResponse(text) => ErrorView::InvalidResponse(text@),
            NlshError::NetworkError(text) => ErrorView::NetworkError(text@),
            NlshError::ConfigError(text) => ErrorView::ConfigError(text@),
            NlshError::IoError(text) => ErrorView::IoError(text@),
        }
    }
}

/// The one-line message of an error.
pub open spec fn message_text(error: ErrorView) -> Seq<char> {
    match error {
        ErrorView::ConnectionFailed { provider, message } => "failed to connect to "@ + provider
            + ": "@ + message,
        ErrorView::InvalidApiKey => "authentication failed: invalid API key"@,
        ErrorView::AuthenticationFailed { message } => "authentication failed: "@ + message,
        ErrorView::ModelNotFound(text) => "model not found: "@ + text,
        ErrorView::RateLimitExceeded { retry_after } => match retry_after {
            Some(seconds) => "rate limit exceeded. retry after "@ + decimal_digits(seconds as nat)
                + " seconds"@,
            None => "rate limit exceeded. please try again later"@,
        },
        ErrorView::ServerError { provider, message } => "server error from "@ + provider + ": "@
            + message,
        ErrorView::Timeout { seconds } => "request timeout after "@ + decimal_digits(
            seconds as nat,
        ) + " seconds"@,
        ErrorView::InvalidResponse(text) => "invalid response from API: "@ + text,
        ErrorView::NetworkError(text) => "network error: "@ + text,
        ErrorView::ConfigError(text) => "configuration error: "@ + text,
        ErrorView::IoError(text) => "io error: "@ + text,
    }
}

/// The seconds after which a request to a provider is given up.
pub const REQUEST_TIMEOUT_SECS: u64 = 30;

/// An HTTP status code: a number from 100 to 999.
#[derive(Debug, Clone, Copy, PartialEq, Eq)]
pub struct HttpStatus {
    code: u16,
}

impl HttpStatus {
    #[verifier::type_invariant]
    spec fn in_range(self) -> bool {
        100 <= self.code <= 999
    }

    /// The number of the status.
    pub closed spec fn value(self) -> u16 {
        self.code
    }

    /// The status with the given number, if the number is one of a status.
    pub fn new(code: u16) -> (status: Option<HttpStatus>)
        ensures
            status is Some <==> 100 <= code <= 999,
            status matches Some(s) ==> s.value() == code,
    {
        if 100 <= code && code <= 999 {
            Some(HttpStatus { code })
        } else {
            None
        }
    }

    /// The number of the status.
    pub fn as_u16(&self) -> (code: u16)
        ensures
            code == self.value(),
            100 <= code <= 999,
    {
        proof {
            use_type_invariant(self);
        }
        self.code
    }
}

/// What a status displays as: its number and its canonical reason phrase.
pub uninterp spec fn status_line(code: u16) -> Seq<char>;

/// Trusted: `reqwest::StatusCode::from_u16` accepts the numbers from 100 to
/// 999, and the status then displays as its number followed by its reason
/// phrase, both given by the number alone; `status_line` names that text.
#[verifier::external_body]
fn describe_status(code: u16) -> (line: Option<String>)
    ensures
        line is Some <==> 100 <= code <= 999,
        line matches Some(text) ==> text@ == status_line(code),
{
    match reqwest::StatusCode::from_u16(code) {
        Ok(status) => Some(status.to_string()),
        Err(_) => None,
    }
}

/// What a failed transport of a request reports of itself.
#[derive(Debug, Clone, PartialEq, Eq)]
pub struct TransportError {
    /// The request timed out.
    pub timeout: bool,
    /// The connection could not be made.
    pub connect: bool,
    /// The request itself was at fault.
    pub request: bool,
    /// The status of the response, where there was one.
    pub status: Option<HttpStatus>,
    /// The message of the failure.
    pub text: String,
}

/// The delay that the body of a response asks for, as the body writes it:
/// in a body that speaks of a retry, what stands after the first `retry in`
/// up to the next `s` or the next `retry in`.
pub open spec fn retry_hint_of(body: Seq<char>) -> Option<Seq<char>> {
    if contains(body, "retry"@) {
        match after_first(body, "retry in "@) {
            Some(rest) => Some(before_first(before_first(rest, "retry in "@), "s"@)),
            None => None,
        }
    } else {
        None
    }
}

/// The delay that the body of a response with an exceeded rate limit asks
/// for, as the body writes it. The caller reads the number of seconds from
/// it, rounded up.
pub fn retry_hint(body: &str) -> (hint: Option<String>)
    ensures
        match hint {
            Some(text) => retry_hint_of(body@) == Some(text@),
            None => retry_hint_of(body@) is None,
        },
{
    let chars = chars_of(body);
    if !includes(&chars, &chars_of("retry")) {
        return None;
    }
    let mark = chars_of("retry in ");
    match take_after(&chars, &mark) {
        Some(rest) => {
            let piece = take_before(&rest, &mark);
            let number = take_before(&piece, &chars_of("s"));
            Some(string_of(&number))
        },
        None => None,
    }
}

/// The body of a response names credentials.
pub open spec fn names_credentials(body: Seq<char>) -> bool {
    contains(body, "key"@) || contains(body, "api"@) || contains(body, "token"@)
}

/// The error for a response with the given status.
///
/// A status of 401 or 403 is a rejected key where the body names
/// credentials, else a failed authentication with the body as its message;
/// 404 is an unknown model where the body mentions a model, else an unknown
/// endpoint; 429 is an exceeded rate limit, with the given delay; a status
/// from 500 to 599 is an error of the server; any other status is an invalid
/// response, reported with the status line.
pub open spec fn http_error(
    code: u16,
    provider: Seq<char>,
    body: Seq<char>,
    retry_after: Option<u64>,
) -> ErrorView {
    if code == 401 || code == 403 {
        if names_credentials(body) {
            ErrorView::InvalidApiKey
        } else {
            ErrorView::AuthenticationFailed { message: body }
        }
    } else if code == 404 {
        if contains(body, "model"@) {
            ErrorView::ModelNotFound(body)
        } else {
            ErrorView::InvalidResponse("endpoint not found: "@ + body)
        }
    } else if code == 429 {
        ErrorView::RateLimitExceeded { retry_after }
    } else if 500 <= code <= 599 {
        ErrorView::ServerError { provider, message: body }
    } else {
        ErrorView::InvalidResponse(status_line(code) + ": "@ + body)
    }
}

/// The error for a failed transport.
///
/// A timeout comes first, then a failed connection, then a faulty request;
/// a failure with a status is mapped as a response with that status and the
/// failure's message as its body; anything else is a network error with the
/// failure's message.
pub open spec fn transport_error(
    timeout: bool,
    connect: bool,
    request: bool,
    status: Option<u16>,
    text: Seq<char>,
    provider: Seq<char>,
) -> ErrorView {
    if timeout {
        ErrorView::Timeout { seconds: REQUEST_TIMEOUT_SECS }
    } else if connect {
        ErrorView::ConnectionFailed {
            provider,
            message: "cannot connect. check if the service is running and the URL is correct"@,
        }
    } else if request {
        ErrorView::NetworkError("invalid request"@)
    } else {
        match status {
            Some(code) => http_error(code, provider, text, None),
            None => ErrorView::NetworkError(text),
        }
    }
}

impl NlshError {
    /// A failed connection to `provider`.
    pub fn connection_failed(provider: &str, message: &str) -> (error: NlshError)
        ensures
            error@ == (ErrorView::ConnectionFailed { provider: provider@, message: message@ }),
    {
        NlshError::ConnectionFailed { provider: provider.to_owned(), message: message.to_owned() }
    }

    /// An error that the server of `provider` reported.
    pub fn server_error(provider: &str, message: &str) -> (error: NlshError)
        ensures
            error@ == (ErrorView::ServerError { provider: provider@, message: message@ }),
    {
        NlshError::ServerError { provider: provider.to_owned(), message: message.to_owned() }
    }

    /// A request that timed out after `seconds`.
    pub fn timeout(seconds: u64) -> (error: NlshError)
        ensures
            error@ == (ErrorView::Timeout { seconds }),
    {
        NlshError::Timeout { seconds }
    }

    /// A failed authentication.
    pub fn auth_failed(message: &str) -> (error: NlshError)
        ensures
            error@ == (ErrorView::AuthenticationFailed { message: message@ }),
    {
        NlshError::AuthenticationFailed { message: message.to_owned() }
    }

    /// The error for a response of `provider` with a status that is no
    /// success. `retry_after` is the delay in seconds that the body asks
    /// for, where the caller read one from it; it matters for status 429
    /// only.
    pub fn from_http_status(
        status: HttpStatus,
        provider: &str,
        body: &str,
        retry_after: Option<u64>,
    ) -> (error: NlshError)
        ensures
            error@ == http_error(status.value(), provider@, body@, retry_after),
    {
        let code = status.as_u16();
        if code == 401 || code == 403 {
            if str_contains(body, "key") || str_contains(body, "api") || str_contains(
                body,
                "token",
            ) {
                NlshError::InvalidApiKey
            } else {
                NlshError::auth_failed(body)
            }
        } else if code == 404 {
            if str_contains(body, "model") {
                NlshError::ModelNotFound(body.to_owned())
            } else {
                let mut text = chars_of("endpoint not found: ");
                extend_str(&mut text, body);
                NlshError::InvalidResponse(string_of(&text))
            }
        } else if code == 429 {
            NlshError::RateLimitExceeded { retry_after }
        } else if 500 <= code && code <= 599 {
            NlshError::server_error(provider, body)
        } else {
            let line = describe_status(code);
            let mut text: Vec<char> = Vec::new();
            match line {
                Some(shown) => {
                    extend_str(&mut text, shown.as_str());
                },
                None => {},
            }
            extend_str(&mut text, ": ");
            extend_str(&mut text, body);
            assert(text@ =~= status_line(code) + ": "@ + body@);
            NlshError::InvalidResponse(string_of(&text))
        }
    }

    /// The error for a failed transport of a request to `provider`.
    pub fn from_reqwest(error: &TransportError, provider: &str) -> (mapped: NlshError)
        ensures
            mapped@ == transport_error(
                error.timeout,
                error.connect,
                error.request,
                match error.status {
                    Some(s) => Some(s.value()),
                    None => None,
                },
                error.text@,
                provider@,
            ),
    {
        if error.timeout {
            NlshError::timeout(REQUEST_TIMEOUT_SECS)
        } else if error.connect {
            NlshError::connection_failed(
                provider,
                "cannot connect. check if the service is running and the URL is correct",
            )
        } else if error.request {
            NlshError::NetworkError("invalid request".to_owned())
        } else {
            match error.status {
                Some(status) => NlshError::from_http_status(
                    status,
                    provider,
                    error.text.as_str(),
                    None,
                ),
                None => NlshError::NetworkError(error.text.clone()),
            }
        }
    }

    /// The one-line message of the error.
    pub fn message(&self) -> (text: String)
        ensures
            text@ == message_text(self@),
    {
        let mut out: Vec<char> = Vec::new();
        match self {
            NlshError::ConnectionFailed { provider, message } => {
                extend_str(&mut out, "failed to connect to ");
                extend_str(&mut out, provider.as_str());
                extend_str(&mut out, ": ");
                extend_str(&mut out, message.as_str());
            },
            NlshError::InvalidApiKey => {
                extend_str(&mut out, "authentication failed: invalid API key");
            },
            NlshError::AuthenticationFailed { message } => {
                extend_str(&mut out, "authentication failed: ");
                extend_str(&mut out, message.as_str());
            },
            NlshError::ModelNotFound(text) => {
                extend_str(&mut out, "model not found: ");
                extend_str(&mut out, text.as_str());
            },
            NlshError::RateLimitExceeded { retry_after } => match retry_after {
                Some(seconds) => {
                    extend_str(&mut out, "rate limit exceeded. retry after ");
                    let wide: u128 = *seconds as u128;
                    let digits = decimal(wide);
                    extend_chars(&mut out, &digits);
                    extend_str(&mut out, " seconds");
                },
                None => {
                    extend_str(&mut out, "rate limit exceeded. please try again later");
                },
            },
            NlshError::ServerError { provider, message } => {
                extend_str(&mut out, "server error from ");
                extend_str(&mut out, provider.as_str());
                extend_str(&mut out, ": ");
                extend_str(&mut out, message.as_str());
            },
            NlshError::Timeout { seconds } => {
                extend_str(&mut out, "request timeout after ");
                let wide: u128 = *seconds as u128;
                    let digits = decimal(wide);
                extend_chars(&mut out, &digits);
                extend_str(&mut out, " seconds");
            },
            NlshError::InvalidResponse(text) => {
                extend_str(&mut out, "invalid response from API: ");
                extend_str(&mut out, text.as_str());
            },
            NlshError::NetworkError(text) => {
                extend_str(&mut out, "network error: ");
                extend_str(&mut out, text.as_str());
            },
            NlshError::ConfigError(text) => {
                extend_str(&mut out, "configuration error: ");
                extend_str(&mut out, text.as_str());
            },
            NlshError::IoError(text) => {
                extend_str(&mut out, "io error: ");
                extend_str(&mut out, text.as_str());
            },
        }
        assert(out@ =~= message_text(self@));
        string_of(&out)
    }
}

} // verus!
