//! Error taxonomy and the classification of failures.
//!
//! Every failure surfaces to the caller as exactly one value of
//! [`ElevenLabsTTMError`]. A failed HTTP response is classified by its
//! status code in a fixed priority order — authentication, rate limit,
//! quota, then a generic API error carrying the status and the server's
//! text — and a transport failure without a status wraps the underlying
//! error. Nothing is retried or swallowed.

use vstd::prelude::*;

verus! {

/// Error type of the HTTP transport, carried through opaquely.
#[verifier::external_type_specification]
#[verifier::external_body]
pub struct ExReqwestError(reqwest::Error);

/// Error type of the JSON decoder, carried through opaquely.
#[verifier::external_type_specification]
#[verifier::external_body]
pub struct ExSerdeJsonError(serde_json::Error);

/// All possible errors that can occur when using the API.
#[derive(Debug)]
pub enum ElevenLabsTTMError {
    /// HTTP request failed with no status available (network issues,
    /// timeout, etc.)
    RequestError(reqwest::Error),
    /// API returned an error status code
    ApiError { status: u16, message: String },
    /// Failed to parse a JSON response
    ParseError(serde_json::Error),
    /// Invalid API key or authentication failed
    AuthenticationError(String),
    /// Rate limit exceeded
    RateLimitError {
        /// Seconds to wait before retrying, when the provider said so.
        retry_after: Option<u64>,
        message: String,
    },
    /// Quota exceeded (not enough credits)
    QuotaExceededError(String),
    /// Invalid input parameters
    ValidationError(String),
}

/// How a response with the given status code and body text classifies:
/// 401, 429 and 402 map to their dedicated kinds with fixed messages — the
/// rate limit kind never carries a retry hint — and every other status to a
/// generic API error carrying the status and the text.
pub open spec fn classified(status: u16, msg: Seq<char>, e: ElevenLabsTTMError) -> bool {
    if status == 401 {
        e matches ElevenLabsTTMError::AuthenticationError(m) && m@ == "Invalid API key"@
    } else if status == 429 {
        e matches ElevenLabsTTMError::RateLimitError { retry_after, message }
            && retry_after is None && message@ == "Too many requests"@
    } else if status == 402 {
        e matches ElevenLabsTTMError::QuotaExceededError(m) && m@ == "Insufficient credits"@
    } else {
        e matches ElevenLabsTTMError::ApiError { status: s, message: m } && s == status && m@
            == msg
    }
}

/// Classify a response by its status code, with `message` as the server's
/// response text.
pub fn classify_status(status: u16, message: String) -> (e: ElevenLabsTTMError)
    ensures
        classified(status, message@, e),
{
    if status == 401 {
        ElevenLabsTTMError::AuthenticationError("Invalid API key".to_owned())
    } else if status == 429 {
        ElevenLabsTTMError::RateLimitError {
            retry_after: Option::None,
            message: "Too many requests".to_owned(),
        }
    } else if status == 402 {
        ElevenLabsTTMError::QuotaExceededError("Insufficient credits".to_owned())
    } else {
        ElevenLabsTTMError::ApiError { status, message }
    }
}

/// The numeric HTTP status a transport error carries, if it was generated
/// from a response at all: what `reqwest::Error::status` returns, a
/// function of the error value alone.
pub uninterp spec fn reqwest_status_of(error: reqwest::Error) -> Option<u16>;

/// The text of a transport error: what its Display impl formats, a
/// function of the error value alone.
pub uninterp spec fn reqwest_text_of(error: reqwest::Error) -> Seq<char>;

/// The text of a JSON decoding error: what its Display impl formats, a
/// function of the error value alone.
pub uninterp spec fn serde_json_text_of(error: serde_json::Error) -> Seq<char>;

/// Relies on reqwest::Error::status (and http's StatusCode::as_u16 to
/// convert): the status, if any, the error was generated from.
#[verifier::external_body]
fn status_of(error: &reqwest::Error) -> (r: Option<u16>)
    ensures
        r == reqwest_status_of(*error),
{
    match error.status() {
        Some(code) => Some(code.as_u16()),
        None => None,
    }
}

/// Relies on the Display impl of reqwest::Error for the error's text.
#[verifier::external_body]
fn reqwest_error_text(error: &reqwest::Error) -> (r: String)
    ensures
        r@ == reqwest_text_of(*error),
{
    format!("{}", error)
}

/// Relies on the Display impl of serde_json::Error for the error's text.
#[verifier::external_body]
fn serde_json_error_text(error: &serde_json::Error) -> (r: String)
    ensures
        r@ == serde_json_text_of(*error),
{
    format!("{}", error)
}

impl ElevenLabsTTMError {
    /// Classify a transport error: one carrying an HTTP status is mapped by
    /// that status exactly like a failed response, with the error's own
    /// text as the message; one without a status (connection failure,
    /// timeout) wraps the transport failure itself, unchanged.
    pub fn from_reqwest(error: reqwest::Error) -> (e: Self)
        ensures
            (reqwest_status_of(error) matches Option::Some(s) ==> classified(
                s,
                reqwest_text_of(error),
                e,
            )),
            (reqwest_status_of(error) is None ==> (e matches ElevenLabsTTMError::RequestError(
                inner,
            ) && inner == error)),
    {
        match status_of(&error) {
            Option::Some(status) => {
                let text = reqwest_error_text(&error);
                classify_status(status, text)
            },
            Option::None => ElevenLabsTTMError::RequestError(error),
        }
    }
}

impl From<serde_json::Error> for ElevenLabsTTMError {
    /// A JSON decoding failure surfaces as a parse error.
    fn from(error: serde_json::Error) -> (e: Self) {
        ElevenLabsTTMError::ParseError(error)
    }
}

impl vstd::std_specs::convert::FromSpecImpl<serde_json::Error> for ElevenLabsTTMError {
    open spec fn obeys_from_spec() -> bool {
        true
    }

    open spec fn from_spec(error: serde_json::Error) -> Self {
        ElevenLabsTTMError::ParseError(error)
    }
}

/// The character of the decimal digit `d`.
pub open spec fn digit_char(d: nat) -> char {
    if d == 0 {
        '0'
    } else if d == 1 {
        '1'
    } else if d == 2 {
        '2'
    } else if d == 3 {
        '3'
    } else if d == 4 {
        '4'
    } else if d == 5 {
        '5'
    } else if d == 6 {
        '6'
    } else if d == 7 {
        '7'
    } else if d == 8 {
        '8'
    } else {
        '9'
    }
}

/// The shortest decimal representation of `n`, as characters.
pub open spec fn dec_chars(n: nat) -> Seq<char>
    decreases n,
    via dec_chars_decreases
{
    if n < 10 {
        seq![digit_char(n)]
    } else {
        dec_chars(n / 10) + seq![digit_char(n % 10)]
    }
}

#[via_fn]
proof fn dec_chars_decreases(n: nat) {
    assert(n >= 10 ==> n / 10 < n) by (nonlinear_arith);
}

/// Append the decimal digit `d` to `out`.
fn append_digit(out: &mut String, d: u64)
    requires
        d < 10,
    ensures
        final(out)@ == old(out)@ + seq![digit_char(d as nat)],
{
    if d == 0 {
        out.append("0");
        proof {
            reveal_strlit("0");
            assert(out@ =~= old(out)@ + seq![digit_char(d as nat)]);
        }
    } else if d == 1 {
        out.append("1");
        proof {
            reveal_strlit("1");
            assert(out@ =~= old(out)@ + seq![digit_char(d as nat)]);
        }
    } else if d == 2 {
        out.append("2");
        proof {
            reveal_strlit("2");
            assert(out@ =~= old(out)@ + seq![digit_char(d as nat)]);
        }
    } else if d == 3 {
        out.append("3");
        proof {
            reveal_strlit("3");
            assert(out@ =~= old(out)@ + seq![digit_char(d as nat)]);
        }
    } else if d == 4 {
        out.append("4");
        proof {
            reveal_strlit("4");
            assert(out@ =~= old(out)@ + seq![digit_char(d as nat)]);
        }
    } else if d == 5 {
        out.append("5");
        proof {
            reveal_strlit("5");
            assert(out@ =~= old(out)@ + seq![digit_char(d as nat)]);
        }
    } else if d == 6 {
        out.append("6");
        proof {
            reveal_strlit("6");
            assert(out@ =~= old(out)@ + seq![digit_char(d as nat)]);
        }
    } else if d == 7 {
        out.append("7");
        proof {
            reveal_strlit("7");
            assert(out@ =~= old(out)@ + seq![digit_char(d as nat)]);
        }
    } else if d == 8 {
        out.append("8");
        proof {
            reveal_strlit("8");
            assert(out@ =~= old(out)@ + seq![digit_char(d as nat)]);
        }
    } else {
        out.append("9");
        proof {
            reveal_strlit("9");
            assert(out@ =~= old(out)@ + seq![digit_char(d as nat)]);
        }
    }
}

/// Append the shortest decimal representation of `n` to `out`.
fn append_dec(out: &mut String, n: u64)
    ensures
        final(out)@ == old(out)@ + dec_chars(n as nat),
    decreases n,
{
    if n >= 10 {
        proof {
            assert(n / 10 < n) by (nonlinear_arith)
                requires
                    n >= 10,
            ;
        }
        append_dec(out, n / 10);
    }
    append_digit(out, n % 10);
    proof {
        assert(old(out)@ + dec_chars(n as nat) =~= out@);
    }
}

impl ElevenLabsTTMError {
    /// The human-readable description of the error: a fixed kind prefix,
    /// followed by the kind's message — and, for an API error, the status
    /// code, or for a rate limit with a retry hint, the seconds to wait.
    pub fn message(&self) -> (r: String)
        ensures
            (self matches ElevenLabsTTMError::ApiError { status, message } ==> r@ == "API error ("@
                + dec_chars(status as nat) + "): "@ + message@),
            (self matches ElevenLabsTTMError::AuthenticationError(m) ==> r@
                == "Authentication failed: "@ + m@),
            (self matches ElevenLabsTTMError::RateLimitError {
                retry_after: Option::Some(s),
                message,
            } ==> r@ == "Rate limit exceeded (retry in "@ + dec_chars(s as nat) + "s): "@
                + message@),
            (self matches ElevenLabsTTMError::RateLimitError {
                retry_after: Option::None,
                message,
            } ==> r@ == "Rate limit exceeded: "@ + message@),
            (self matches ElevenLabsTTMError::QuotaExceededError(m) ==> r@ == "Quota exceeded: "@
                + m@),
            (self matches ElevenLabsTTMError::ValidationError(m) ==> r@ == "Validation error: "@
                + m@),
            (self matches ElevenLabsTTMError::RequestError(inner) ==> r@ == "Request failed: "@
                + reqwest_text_of(*inner)),
            (self matches ElevenLabsTTMError::ParseError(inner) ==> r@
                == "Failed to parse response: "@ + serde_json_text_of(*inner)),
    {
        match self {
            ElevenLabsTTMError::RequestError(e) => {
                let mut out = "Request failed: ".to_owned();
                let text = reqwest_error_text(e);
                out.append(text.as_str());
                out
            },
            ElevenLabsTTMError::ApiError { status, message } => {
                let mut out = "API error (".to_owned();
                append_dec(&mut out, *status as u64);
                out.append("): ");
                out.append(message.as_str());
                proof {
                    assert(out@ =~= "API error ("@ + dec_chars(*status as nat) + "): "@
                        + message@);
                }
                out
            },
            ElevenLabsTTMError::ParseError(e) => {
                let mut out = "Failed to parse response: ".to_owned();
                let text = serde_json_error_text(e);
                out.append(text.as_str());
                out
            },
            ElevenLabsTTMError::AuthenticationError(m) => {
                let mut out = "Authentication failed: ".to_owned();
                out.append(m.as_str());
                out
            },
            ElevenLabsTTMError::RateLimitError { retry_after, message } => {
                match retry_after {
                    Option::Some(s) => {
                        let mut out = "Rate limit exceeded (retry in ".to_owned();
                        append_dec(&mut out, *s);
                        out.append("s): ");
                        out.append(message.as_str());
                        proof {
                            assert(out@ =~= "Rate limit exceeded (retry in "@ + dec_chars(
                                *s as nat,
                            ) + "s): "@ + message@);
                        }
                        out
                    },
                    Option::None => {
                        let mut out = "Rate limit exceeded: ".to_owned();
                        out.append(message.as_str());
                        out
                    },
                }
            },
            ElevenLabsTTMError::QuotaExceededError(m) => {
                let mut out = "Quota exceeded: ".to_owned();
                out.append(m.as_str());
                out
            },
            ElevenLabsTTMError::ValidationError(m) => {
                let mut out = "Validation error: ".to_owned();
                out.append(m.as_str());
                out
            },
        }
    }
}

} // verus!
