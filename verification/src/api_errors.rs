//! Errors of the chat-completions API and how they are classified for
//! retrying.

use vstd::prelude::*;
use crate::text::{decimal, decimal_string, push_str, str_eq};

verus! {

/// What the library reads of a failed HTTP request.
pub struct RequestFailure {
    /// The request timed out.
    pub timeout: bool,
    /// Connecting failed.
    pub connect: bool,
    /// The HTTP status of the reply, if one came.
    pub status: Option<u16>,
    /// The error's message.
    pub message: String,
}

/// An API failure.
pub enum ApiError {
    Auth(String),
    RateLimit { retry_after_secs: Option<u64> },
    Server(String),
    ContextTooLong(String),
    Request(RequestFailure),
    StreamParse(String),
    ApiResponse { error_type: String, message: String },
}

#[derive(Debug, Clone, Copy, PartialEq, Eq, Structural)]
pub enum ErrorCategory {
    RateLimit,
    ServerError,
    AuthError,
    ContextError,
    Other,
}

/// The category of a failed request.
pub open spec fn request_category(f: RequestFailure) -> ErrorCategory {
    if f.timeout || f.connect {
        ErrorCategory::ServerError
    } else {
        match f.status {
            Some(s) => if s == 429 {
                ErrorCategory::RateLimit
            } else if s == 401 || s == 403 {
                ErrorCategory::AuthError
            } else if 500 <= s <= 599 {
                ErrorCategory::ServerError
            } else {
                ErrorCategory::Other
            },
            None => ErrorCategory::Other,
        }
    }
}

/// The category of an error reported in an API response body.
pub open spec fn response_category(t: Seq<char>) -> ErrorCategory {
    if t == "authentication_error"@ || t == "permission_error"@ {
        ErrorCategory::AuthError
    } else if t == "rate_limit_error"@ {
        ErrorCategory::RateLimit
    } else if t == "overloaded_error"@ || t == "api_error"@ {
        ErrorCategory::ServerError
    } else {
        ErrorCategory::Other
    }
}

pub open spec fn category_of(e: ApiError) -> ErrorCategory {
    match e {
        ApiError::Auth(_) => ErrorCategory::AuthError,
        ApiError::RateLimit { .. } => ErrorCategory::RateLimit,
        ApiError::Server(_) => ErrorCategory::ServerError,
        ApiError::ContextTooLong(_) => ErrorCategory::ContextError,
        ApiError::Request(f) => request_category(f),
        ApiError::StreamParse(_) => ErrorCategory::Other,
        ApiError::ApiResponse { error_type, .. } => response_category(error_type@),
    }
}

pub open spec fn retryable(e: ApiError) -> bool {
    category_of(e) == ErrorCategory::RateLimit || category_of(e) == ErrorCategory::ServerError
}

/// `{:?}` of an optional number.
pub open spec fn debug_opt(o: Option<u64>) -> Seq<char> {
    match o {
        Some(n) => "Some("@ + decimal(n as nat) + ")"@,
        None => "None"@,
    }
}

/// The message of an error.
pub open spec fn error_text(e: ApiError) -> Seq<char> {
    match e {
        ApiError::Auth(m) => "Authentication error: "@ + m@,
        ApiError::RateLimit { retry_after_secs } => "Rate limited: retry after "@ + debug_opt(
            retry_after_secs,
        ) + "s"@,
        ApiError::Server(m) => "Server error: "@ + m@,
        ApiError::ContextTooLong(m) => "Context too long: "@ + m@,
        ApiError::Request(f) => "Request error: "@ + f.message@,
        ApiError::StreamParse(m) => "Stream parse error: "@ + m@,
        ApiError::ApiResponse { error_type, message } => "API error: "@ + error_type@ + ": "@ + message@,
    }
}

impl ApiError {
    pub fn category(&self) -> (c: ErrorCategory)
        ensures
            c == category_of(*self),
    {
        match self {
            ApiError::Auth(_) => ErrorCategory::AuthError,
            ApiError::RateLimit { .. } => ErrorCategory::RateLimit,
            ApiError::Server(_) => ErrorCategory::ServerError,
            ApiError::ContextTooLong(_) => ErrorCategory::ContextError,
            ApiError::Request(f) => {
                if f.timeout || f.connect {
                    ErrorCategory::ServerError
                } else {
                    match f.status {
                        Some(s) => if s == 429 {
                            ErrorCategory::RateLimit
                        } else if s == 401 || s == 403 {
                            ErrorCategory::AuthError
                        } else if 500 <= s && s <= 599 {
                            ErrorCategory::ServerError
                        } else {
                            ErrorCategory::Other
                        },
                        None => ErrorCategory::Other,
                    }
                }
            },
            ApiError::StreamParse(_) => ErrorCategory::Other,
            ApiError::ApiResponse { error_type, .. } => {
                let t = error_type.as_str();
                if str_eq(t, "authentication_error") || str_eq(t, "permission_error") {
                    ErrorCategory::AuthError
                } else if str_eq(t, "rate_limit_error") {
                    ErrorCategory::RateLimit
                } else if str_eq(t, "overloaded_error") || str_eq(t, "api_error") {
                    ErrorCategory::ServerError
                } else {
                    ErrorCategory::Other
                }
            },
        }
    }

    /// Rate limits and server-side failures are worth retrying.
    pub fn is_retryable(&self) -> (b: bool)
        ensures
            b == retryable(*self),
    {
        let c = self.category();
        c == ErrorCategory::RateLimit || c == ErrorCategory::ServerError
    }

    /// The error's message (its `Display` text).
    pub fn describe(&self) -> (s: String)
        ensures
            s@ == error_text(*self),
    {
        match self {
            ApiError::Auth(m) => {
                let mut s = "Authentication error: ".to_owned();
                push_str(&mut s, m.as_str());
                s
            },
            ApiError::RateLimit { retry_after_secs } => {
                let mut s = "Rate limited: retry after ".to_owned();
                match retry_after_secs {
                    Some(n) => {
                        push_str(&mut s, "Some(");
                        push_str(&mut s, decimal_string(*n).as_str());
                        push_str(&mut s, ")");
                    },
                    None => push_str(&mut s, "None"),
                }
                push_str(&mut s, "s");
                s
            },
            ApiError::Server(m) => {
                let mut s = "Server error: ".to_owned();
                push_str(&mut s, m.as_str());
                s
            },
            ApiError::ContextTooLong(m) => {
                let mut s = "Context too long: ".to_owned();
                push_str(&mut s, m.as_str());
                s
            },
            ApiError::Request(f) => {
                let mut s = "Request error: ".to_owned();
                push_str(&mut s, f.message.as_str());
                s
            },
            ApiError::StreamParse(m) => {
                let mut s = "Stream parse error: ".to_owned();
                push_str(&mut s, m.as_str());
                s
            },
            ApiError::ApiResponse { error_type, message } => {
                let mut s = "API error: ".to_owned();
                push_str(&mut s, error_type.as_str());
                push_str(&mut s, ": ");
                push_str(&mut s, message.as_str());
                s
            },
        }
    }
}

// ─── Retrying ───────────────────────────────────────────────────────────────

/// How failed requests are retried: at most `max_retries` attempts in all,
/// waiting an exponentially growing delay between them, capped.
pub struct RetryConfig {
    pub max_retries: u32,
    pub base_delay_ms: u64,
    pub max_delay_ms: u64,
}

impl RetryConfig {
    /// Three attempts, from one second up to thirty.
    pub fn default_config() -> (c: RetryConfig)
        ensures
            c.max_retries == 3,
            c.base_delay_ms == 1000,
            c.max_delay_ms == 30000,
    {
        RetryConfig { max_retries: 3, base_delay_ms: 1000, max_delay_ms: 30000 }
    }
}

/// `2^n`.
pub open spec fn pow2(n: nat) -> nat
    decreases n,
{
    if n == 0 { 1 } else { 2 * pow2((n - 1) as nat) }
}

/// What to do after the `attempt`-th failure.
pub enum RetryStep {
    /// Give the error back.
    GiveUp,
    /// The server asked to wait this many seconds.
    WaitSecs(u64),
    /// Wait the back-off (in milliseconds) scaled by a random factor between
    /// one half and three halves, then capped by `cap_delay`.
    Backoff(u64),
}

/// The back-off before the attempt after the `attempt`-th failure:
/// `base * 2^(attempt - 1)` milliseconds, saturating at `u64::MAX`.
pub open spec fn backoff_ms(base: u64, attempt: nat) -> nat {
    let b: nat = (base as nat) * pow2((attempt - 1) as nat);
    if b > u64::MAX { u64::MAX as nat } else { b }
}

/// What follows the `attempt`-th failure (counted from 1) with `err`.
pub open spec fn retry_step(c: RetryConfig, attempt: nat, err: ApiError) -> RetryStep {
    if attempt >= c.max_retries || !retryable(err) {
        RetryStep::GiveUp
    } else {
        match err {
            ApiError::RateLimit { retry_after_secs: Some(secs) } => RetryStep::WaitSecs(secs),
            _ => RetryStep::Backoff(backoff_ms(c.base_delay_ms, attempt) as u64),
        }
    }
}

impl RetryConfig {
    /// What follows the `attempt`-th failure (counted from 1) with `err`.
    pub fn after_failure(&self, attempt: u32, err: &ApiError) -> (s: RetryStep)
        requires
            attempt >= 1,
        ensures
            s == retry_step(*self, attempt as nat, *err),
    {
        if attempt >= self.max_retries || !err.is_retryable() {
            return RetryStep::GiveUp;
        }
        match err {
            ApiError::RateLimit { retry_after_secs: Some(secs) } => RetryStep::WaitSecs(*secs),
            _ => {
                let mut b: u64 = self.base_delay_ms;
                let mut k: u32 = 1;
                let mut saturated = false;
                assert(pow2(0) == 1);
                assert(self.base_delay_ms * pow2(0) == self.base_delay_ms) by (nonlinear_arith)
                    requires
                        pow2(0) == 1,
                ;
                while k < attempt
                    invariant
                        1 <= k <= attempt,
                        saturated ==> self.base_delay_ms * pow2((k - 1) as nat) > u64::MAX && b == u64::MAX,
                        !saturated ==> b == self.base_delay_ms * pow2((k - 1) as nat),
                    decreases attempt - k,
                {
                    proof {
                        assert(pow2(k as nat) == 2 * pow2((k - 1) as nat));
                        assert(self.base_delay_ms * pow2(k as nat) == 2 * (self.base_delay_ms * pow2(
                            (k - 1) as nat,
                        ))) by (nonlinear_arith)
                            requires
                                pow2(k as nat) == 2 * pow2((k - 1) as nat),
                        ;
                    }
                    if !saturated {
                        if b > u64::MAX / 2 {
                            saturated = true;
                            b = u64::MAX;
                        } else {
                            b = b * 2;
                        }
                    }
                    k += 1;
                }
                RetryStep::Backoff(b)
            },
        }
    }

    /// A scaled back-off capped at the longest delay.
    pub fn cap_delay(&self, delay_ms: u64) -> (d: u64)
        ensures
            d == if delay_ms <= self.max_delay_ms { delay_ms } else { self.max_delay_ms },
    {
        if delay_ms <= self.max_delay_ms {
            delay_ms
        } else {
            self.max_delay_ms
        }
    }
}

/// A request is tried at most `max_retries` times in all, and an error that
/// is not worth retrying is given back at once.
pub proof fn law_retries_are_bounded(c: RetryConfig, attempt: nat, err: ApiError)
    requires
        attempt >= c.max_retries || !retryable(err),
    ensures
        retry_step(c, attempt, err) is GiveUp,
{
}

/// The back-off doubles from one attempt to the next (until it saturates).
pub proof fn law_backoff_doubles(base: u64, attempt: nat)
    requires
        attempt >= 1,
    ensures
        backoff_ms(base, attempt + 1) == if 2 * backoff_ms(base, attempt) > u64::MAX {
            u64::MAX as nat
        } else {
            2 * backoff_ms(base, attempt)
        },
{
    let p = pow2((attempt - 1) as nat);
    assert(pow2(attempt) == 2 * p);
    assert((base as nat) * pow2(attempt) == 2 * ((base as nat) * p)) by (nonlinear_arith)
        requires
            pow2(attempt) == 2 * p,
    ;
}

} // verus!
