//! The error type of every command, its stable `kind` string, its process
//! exit code, the human-readable message, and the classification of HTTP
//! failures and error statuses.

use vstd::prelude::*;

use crate::text::{
    decimal, join_spec, join_strings, owned, parse_u64, parse_u64_spec, push_decimal, push_str, views,
};

verus! {

/// Every way a command can fail. Errors that come from an outside library
/// (file system, HTTP, JSON, URL parsing) carry that library's message.
pub enum AppError {
    Message(String),
    MissingCredential(String),
    Unauthorized(String),
    Forbidden(String),
    NotFound(String),
    RateLimited { retry_after_secs: Option<u64>, remaining: Option<u64>, reset_at: Option<u64> },
    InvalidQuality { quality: String, available: Vec<String> },
    Io(String),
    Http(String),
    Json(String),
    Url(String),
}

/// The mathematical value of an [`AppError`]: strings as character
/// sequences.
pub enum ErrorView {
    Message(Seq<char>),
    MissingCredential(Seq<char>),
    Unauthorized(Seq<char>),
    Forbidden(Seq<char>),
    NotFound(Seq<char>),
    RateLimited { retry_after_secs: Option<u64>, remaining: Option<u64>, reset_at: Option<u64> },
    InvalidQuality { quality: Seq<char>, available: Seq<Seq<char>> },
    Io(Seq<char>),
    Http(Seq<char>),
    Json(Seq<char>),
    Url(Seq<char>),
}

impl View for AppError {
    type V = ErrorView;

    open spec fn view(&self) -> ErrorView {
        match self {
            AppError::Message(m) => ErrorView::Message(m@),
            AppError::MissingCredential(m) => ErrorView::MissingCredential(m@),
            AppError::Unauthorized(m) => ErrorView::Unauthorized(m@),
            AppError::Forbidden(m) => ErrorView::Forbidden(m@),
            AppError::NotFound(m) => ErrorView::NotFound(m@),
            AppError::RateLimited { retry_after_secs, remaining, reset_at } => ErrorView::RateLimited {
                retry_after_secs: *retry_after_secs,
                remaining: *remaining,
                reset_at: *reset_at,
            },
            AppError::InvalidQuality { quality, available } => ErrorView::InvalidQuality {
                quality: quality@,
                available: views(available@),
            },
            AppError::Io(m) => ErrorView::Io(m@),
            AppError::Http(m) => ErrorView::Http(m@),
            AppError::Json(m) => ErrorView::Json(m@),
            AppError::Url(m) => ErrorView::Url(m@),
        }
    }
}

/// The stable machine-readable `kind` of an error.
pub open spec fn kind_of(e: ErrorView) -> Seq<char> {
    match e {
        ErrorView::Message(_) => "error"@,
        ErrorView::MissingCredential(_) => "missing_credential"@,
        ErrorView::Unauthorized(_) => "unauthorized"@,
        ErrorView::Forbidden(_) => "forbidden"@,
        ErrorView::NotFound(_) => "not_found"@,
        ErrorView::RateLimited { .. } => "rate_limited"@,
        ErrorView::InvalidQuality { .. } => "invalid_quality"@,
        ErrorView::Io(_) => "io_error"@,
        ErrorView::Http(_) => "http_error"@,
        ErrorView::Json(_) => "json_error"@,
        ErrorView::Url(_) => "url_error"@,
    }
}

/// The process exit code of an error.
pub open spec fn exit_code_of(e: ErrorView) -> i32 {
    match e {
        ErrorView::MissingCredential(_) | ErrorView::Unauthorized(_) | ErrorView::Forbidden(_) => 3,
        ErrorView::NotFound(_) | ErrorView::InvalidQuality { .. } => 4,
        ErrorView::Http(_) => 5,
        ErrorView::RateLimited { .. } => 6,
        ErrorView::Message(_) | ErrorView::Io(_) | ErrorView::Json(_) | ErrorView::Url(_) => 1,
    }
}

/// The exit-code table of the command-line interface, by `kind`.
pub open spec fn exit_code_for_kind(kind: Seq<char>) -> i32 {
    if kind == "missing_credential"@ || kind == "unauthorized"@ || kind == "forbidden"@ {
        3
    } else if kind == "not_found"@ || kind == "invalid_quality"@ {
        4
    } else if kind == "http_error"@ {
        5
    } else if kind == "rate_limited"@ {
        6
    } else {
        1
    }
}

/// The human-readable message of an error.
pub open spec fn message_of(e: ErrorView) -> Seq<char> {
    match e {
        ErrorView::Message(m) => m,
        ErrorView::MissingCredential(m) => m,
        ErrorView::Unauthorized(m) => m,
        ErrorView::Forbidden(m) => m,
        ErrorView::NotFound(m) => m,
        ErrorView::RateLimited { retry_after_secs, .. } => "rate limited by Pexels"@ + match retry_after_secs {
            Some(s) => " (retry after "@ + decimal(s as nat) + "s)"@,
            None => Seq::empty(),
        },
        ErrorView::InvalidQuality { quality, available } => "unknown quality '"@ + quality
            + "' (available: "@ + join_spec(available, ", "@) + ")"@,
        ErrorView::Io(m) => m,
        ErrorView::Http(m) => m,
        ErrorView::Json(m) => m,
        ErrorView::Url(m) => m,
    }
}

/// The fields of the JSON error object printed on stderr: `kind` and
/// `message` always, rate-limit figures when known, and the available
/// qualities for an unknown quality.
pub struct ErrorReport {
    pub kind: &'static str,
    pub message: String,
    pub retry_after_secs: Option<u64>,
    pub remaining: Option<u64>,
    pub reset_at: Option<u64>,
    pub available_qualities: Option<Vec<String>>,
}

impl AppError {
    /// A generic error with the given message.
    pub fn message(message: String) -> (r: AppError)
        ensures
            r@ == ErrorView::Message(message@),
    {
        AppError::Message(message)
    }

    /// The stable `kind` string.
    pub fn kind(&self) -> (r: &'static str)
        ensures
            r@ == kind_of(self@),
    {
        match self {
            AppError::Message(_) => "error",
            AppError::MissingCredential(_) => "missing_credential",
            AppError::Unauthorized(_) => "unauthorized",
            AppError::Forbidden(_) => "forbidden",
            AppError::NotFound(_) => "not_found",
            AppError::RateLimited { .. } => "rate_limited",
            AppError::InvalidQuality { .. } => "invalid_quality",
            AppError::Io(_) => "io_error",
            AppError::Http(_) => "http_error",
            AppError::Json(_) => "json_error",
            AppError::Url(_) => "url_error",
        }
    }

    /// The process exit code.
    pub fn exit_code(&self) -> (r: i32)
        ensures
            r == exit_code_of(self@),
    {
        match self {
            AppError::MissingCredential(_) | AppError::Unauthorized(_) | AppError::Forbidden(_) => 3,
            AppError::NotFound(_) | AppError::InvalidQuality { .. } => 4,
            AppError::Http(_) => 5,
            AppError::RateLimited { .. } => 6,
            AppError::Message(_) | AppError::Io(_) | AppError::Json(_) | AppError::Url(_) => 1,
        }
    }

    /// The human-readable message (what `Display` shows).
    pub fn to_string(&self) -> (r: String)
        ensures
            r@ == message_of(self@),
    {
        match self {
            AppError::Message(m) | AppError::MissingCredential(m) | AppError::Unauthorized(m)
            | AppError::Forbidden(m) | AppError::NotFound(m) | AppError::Io(m) | AppError::Http(m)
            | AppError::Json(m) | AppError::Url(m) => m.clone(),
            AppError::RateLimited { retry_after_secs, .. } => {
                let mut r = owned("rate limited by Pexels");
                match retry_after_secs {
                    Some(s) => {
                        push_str(&mut r, " (retry after ");
                        push_decimal(&mut r, *s);
                        push_str(&mut r, "s)");
                    },
                    None => {},
                }
                assert(r@ =~= message_of(self@));
                r
            },
            AppError::InvalidQuality { quality, available } => {
                let mut r = owned("unknown quality '");
                push_str(&mut r, quality.as_str());
                push_str(&mut r, "' (available: ");
                let joined = join_strings(available, ", ");
                push_str(&mut r, joined.as_str());
                push_str(&mut r, ")");
                assert(r@ =~= message_of(self@));
                r
            },
        }
    }

    /// The fields of the JSON error object printed on stderr.
    pub fn report(&self) -> (r: ErrorReport)
        ensures
            r.kind@ == kind_of(self@),
            r.message@ == message_of(self@),
            r.retry_after_secs == (match self@ {
                ErrorView::RateLimited { retry_after_secs, .. } => retry_after_secs,
                _ => None,
            }),
            r.remaining == (match self@ {
                ErrorView::RateLimited { remaining, .. } => remaining,
                _ => None,
            }),
            r.reset_at == (match self@ {
                ErrorView::RateLimited { reset_at, .. } => reset_at,
                _ => None,
            }),
            r.available_qualities.is_some() == (self@ is InvalidQuality),
            r.available_qualities matches Some(a) ==> views(a@) == self@->available,
    {
        let kind = self.kind();
        let message = self.to_string();
        match self {
            AppError::RateLimited { retry_after_secs, remaining, reset_at } => ErrorReport {
                kind,
                message,
                retry_after_secs: *retry_after_secs,
                remaining: *remaining,
                reset_at: *reset_at,
                available_qualities: None,
            },
            AppError::InvalidQuality { available, .. } => ErrorReport {
                kind,
                message,
                retry_after_secs: None,
                remaining: None,
                reset_at: None,
                available_qualities: Some(available.clone()),
            },
            _ => ErrorReport {
                kind,
                message,
                retry_after_secs: None,
                remaining: None,
                reset_at: None,
                available_qualities: None,
            },
        }
    }
}

/// What the HTTP library reported about a failed request: whether it
/// timed out, whether the connection could not be made, and its message.
pub struct HttpFailure {
    pub timed_out: bool,
    pub connect: bool,
    pub text: String,
}

/// How a failed request is reported: timeouts and connection failures as
/// generic errors with a telling prefix, anything else as an HTTP error.
pub open spec fn http_failure_error(timed_out: bool, connect: bool, text: Seq<char>) -> ErrorView {
    if timed_out {
        ErrorView::Message("HTTP request timed out: "@ + text)
    } else if connect {
        ErrorView::Message("HTTP connection error: "@ + text)
    } else {
        ErrorView::Http(text)
    }
}

/// A header value read as a number, when present and well formed.
pub open spec fn header_number(h: Option<Seq<char>>) -> Option<u64> {
    match h {
        Some(s) => parse_u64_spec(s),
        None => None,
    }
}

/// The error that an HTTP status stands for, if the client reports it
/// specially: 401, 403, 404 and 429 (with the rate-limit headers).
pub open spec fn status_error_spec(
    status: u16,
    url: Seq<char>,
    retry_after: Option<Seq<char>>,
    remaining: Option<Seq<char>>,
    reset_at: Option<Seq<char>>,
) -> Option<ErrorView> {
    if status == 401 {
        Some(ErrorView::Unauthorized("Pexels rejected the API key (HTTP 401 Unauthorized)"@))
    } else if status == 403 {
        Some(ErrorView::Forbidden("Pexels refused access (HTTP 403 Forbidden)"@))
    } else if status == 404 {
        Some(ErrorView::NotFound("Pexels returned HTTP 404 Not Found for "@ + url))
    } else if status == 429 {
        Some(ErrorView::RateLimited {
            retry_after_secs: header_number(retry_after),
            remaining: header_number(remaining),
            reset_at: header_number(reset_at),
        })
    } else {
        None
    }
}

/// The views of optional strings.
pub open spec fn opt_view(o: Option<String>) -> Option<Seq<char>> {
    match o {
        Some(s) => Some(s@),
        None => None,
    }
}

fn header_value_number(h: &Option<String>) -> (r: Option<u64>)
    ensures
        r == header_number(opt_view(*h)),
{
    match h {
        Some(s) => parse_u64(s.as_str()),
        None => None,
    }
}

impl AppError {
    /// Classifies a failed request (`From<reqwest::Error>`).
    pub fn from_http(failure: HttpFailure) -> (r: AppError)
        ensures
            r@ == http_failure_error(failure.timed_out, failure.connect, failure.text@),
    {
        if failure.timed_out {
            let mut m = owned("HTTP request timed out: ");
            push_str(&mut m, failure.text.as_str());
            AppError::Message(m)
        } else if failure.connect {
            let mut m = owned("HTTP connection error: ");
            push_str(&mut m, failure.text.as_str());
            AppError::Message(m)
        } else {
            AppError::Http(failure.text)
        }
    }

    /// The error that an HTTP response status stands for, given the
    /// requested URL and the `Retry-After`, `X-Ratelimit-Remaining` and
    /// `X-Ratelimit-Reset` headers; `None` for statuses reported otherwise.
    pub fn from_status(
        status: u16,
        url: &str,
        retry_after: &Option<String>,
        remaining: &Option<String>,
        reset_at: &Option<String>,
    ) -> (r: Option<AppError>)
        ensures
            r matches Some(e) ==> status_error_spec(
                status,
                url@,
                opt_view(*retry_after),
                opt_view(*remaining),
                opt_view(*reset_at),
            ) == Some(e@),
            r is None ==> status_error_spec(
                status,
                url@,
                opt_view(*retry_after),
                opt_view(*remaining),
                opt_view(*reset_at),
            ) is None,
    {
        if status == 401 {
            Some(AppError::Unauthorized(owned("Pexels rejected the API key (HTTP 401 Unauthorized)")))
        } else if status == 403 {
            Some(AppError::Forbidden(owned("Pexels refused access (HTTP 403 Forbidden)")))
        } else if status == 404 {
            let mut m = owned("Pexels returned HTTP 404 Not Found for ");
            push_str(&mut m, url);
            Some(AppError::NotFound(m))
        } else if status == 429 {
            Some(AppError::RateLimited {
                retry_after_secs: header_value_number(retry_after),
                remaining: header_value_number(remaining),
                reset_at: header_value_number(reset_at),
            })
        } else {
            None
        }
    }
}

/// The exit code of every error is the one that the command-line table
/// gives for its `kind`: 3 for credential problems, 4 for a missing
/// resource or quality, 5 for network failures, 6 for rate limiting, and 1
/// for everything else.
pub proof fn law_exit_code_follows_kind(e: ErrorView)
    ensures
        exit_code_of(e) == exit_code_for_kind(kind_of(e)),
{
    reveal_strlit("error");
    reveal_strlit("missing_credential");
    reveal_strlit("unauthorized");
    reveal_strlit("forbidden");
    reveal_strlit("not_found");
    reveal_strlit("rate_limited");
    reveal_strlit("invalid_quality");
    reveal_strlit("io_error");
    reveal_strlit("http_error");
    reveal_strlit("json_error");
    reveal_strlit("url_error");
    let k = kind_of(e);
    assert(k.len() != 18 ==> k != "missing_credential"@);
    assert(k.len() != 12 || k[0] != 'u' ==> k != "unauthorized"@);
    assert(k.len() != 9 || k[0] != 'f' ==> k != "forbidden"@);
    assert(k.len() != 9 || k[0] != 'n' ==> k != "not_found"@);
    assert(k.len() != 15 ==> k != "invalid_quality"@);
    assert(k.len() != 10 || k[0] != 'h' ==> k != "http_error"@);
    assert(k.len() != 12 || k[0] != 'r' ==> k != "rate_limited"@);
}

} // verus!
