//! What can go wrong between the gateway and a provider.
//!
//! - `Auth` (401, 403): the key is dead; do not retry.
//! - `RateLimited` (429): back off, and respect `Retry-After`.
//! - `EmptyResponse` (200 with an empty body): retry twice, then fall back; does
//!   not count against the provider.
//! - `Timeout`, `ServerError` (5xx), `NetworkError`: retry, then fall back.

use crate::text;
use vstd::prelude::*;

verus! {

#[derive(Debug, Clone)]
pub enum ApiError {
    Auth { provider: String, status: u16, body: String },
    RateLimited { provider: String, retry_after_secs: Option<u64> },
    EmptyResponse { provider: String },
    Timeout { provider: String, secs: u64 },
    ServerError { provider: String, status: u16, body: String },
    NetworkError { provider: String, msg: String },
    AllProvidersExhausted,
}

/// What an error is, as a mathematical value.
pub enum ApiErrorModel {
    Auth { provider: Seq<char>, status: u16, body: Seq<char> },
    RateLimited { provider: Seq<char>, retry_after_secs: Option<u64> },
    EmptyResponse { provider: Seq<char> },
    Timeout { provider: Seq<char>, secs: u64 },
    ServerError { provider: Seq<char>, status: u16, body: Seq<char> },
    NetworkError { provider: Seq<char>, msg: Seq<char> },
    AllProvidersExhausted,
}

impl View for ApiError {
    type V = ApiErrorModel;

    open spec fn view(&self) -> ApiErrorModel {
        match *self {
            ApiError::Auth { provider, status, body } => ApiErrorModel::Auth {
                provider: provider@,
                status,
                body: body@,
            },
            ApiError::RateLimited { provider, retry_after_secs } => ApiErrorModel::RateLimited {
                provider: provider@,
                retry_after_secs,
            },
            ApiError::EmptyResponse { provider } => ApiErrorModel::EmptyResponse {
                provider: provider@,
            },
            ApiError::Timeout { provider, secs } => ApiErrorModel::Timeout {
                provider: provider@,
                secs,
            },
            ApiError::ServerError { provider, status, body } => ApiErrorModel::ServerError {
                provider: provider@,
                status,
                body: body@,
            },
            ApiError::NetworkError { provider, msg } => ApiErrorModel::NetworkError {
                provider: provider@,
                msg: msg@,
            },
            ApiError::AllProvidersExhausted => ApiErrorModel::AllProvidersExhausted,
        }
    }
}

impl ApiErrorModel {
    /// Whether the error counts against the provider.
    pub open spec fn breaker_failure(self) -> bool {
        !(self is EmptyResponse || self is AllProvidersExhausted)
    }

    /// Whether the same provider may be tried again.
    pub open spec fn retriable(self) -> bool {
        match self {
            ApiErrorModel::Auth { .. } => false,
            ApiErrorModel::AllProvidersExhausted => false,
            ApiErrorModel::ServerError { status, .. } => status >= 500,
            _ => true,
        }
    }

    /// What the error says of itself.
    pub open spec fn message(self) -> Seq<char> {
        match self {
            ApiErrorModel::Auth { provider, status, .. } => "auth error on "@ + provider + " ("@
                + text::decimal(status as nat) + ")"@,
            ApiErrorModel::RateLimited { provider, retry_after_secs } => "rate limited on "@
                + provider + " (retry after "@ + text::decimal_option(retry_after_secs) + "s)"@,
            ApiErrorModel::EmptyResponse { provider } => "empty response from "@ + provider,
            ApiErrorModel::Timeout { provider, secs } => "timeout on "@ + provider + " ("@
                + text::decimal(secs as nat) + "s)"@,
            ApiErrorModel::ServerError { provider, status, .. } => "server error on "@ + provider
                + " ("@ + text::decimal(status as nat) + ")"@,
            ApiErrorModel::NetworkError { provider, msg } => "network error on "@ + provider
                + ": "@ + msg,
            ApiErrorModel::AllProvidersExhausted => "all providers exhausted"@,
        }
    }
}

impl ApiError {
    /// Whether the error counts as a failure of the provider.
    pub fn is_breaker_failure(&self) -> (r: bool)
        ensures
            r == self@.breaker_failure(),
    {
        match self {
            ApiError::Auth { .. } => true,
            ApiError::ServerError { .. } => true,
            ApiError::NetworkError { .. } => true,
            ApiError::Timeout { .. } => true,
            ApiError::RateLimited { .. } => true,
            ApiError::EmptyResponse { .. } => false,
            ApiError::AllProvidersExhausted => false,
        }
    }

    /// Whether the same provider should be tried again before the next one.
    pub fn should_retry(&self) -> (r: bool)
        ensures
            r == self@.retriable(),
    {
        match self {
            ApiError::Auth { .. } => false,
            ApiError::RateLimited { .. } => true,
            ApiError::EmptyResponse { .. } => true,
            ApiError::Timeout { .. } => true,
            ApiError::ServerError { status, .. } => *status >= 500,
            ApiError::NetworkError { .. } => true,
            ApiError::AllProvidersExhausted => false,
        }
    }

    /// What the error says of itself.
    pub fn to_string(&self) -> (r: String)
        ensures
            r@ == self@.message(),
    {
        let mut out = String::new();
        match self {
            ApiError::Auth { provider, status, .. } => {
                out.append("auth error on ");
                out.append(provider.as_str());
                out.append(" (");
                text::push_decimal(&mut out, *status as u64);
                out.append(")");
            },
            ApiError::RateLimited { provider, retry_after_secs } => {
                out.append("rate limited on ");
                out.append(provider.as_str());
                out.append(" (retry after ");
                text::push_decimal_option(&mut out, *retry_after_secs);
                out.append("s)");
            },
            ApiError::EmptyResponse { provider } => {
                out.append("empty response from ");
                out.append(provider.as_str());
            },
            ApiError::Timeout { provider, secs } => {
                out.append("timeout on ");
                out.append(provider.as_str());
                out.append(" (");
                text::push_decimal(&mut out, *secs);
                out.append("s)");
            },
            ApiError::ServerError { provider, status, .. } => {
                out.append("server error on ");
                out.append(provider.as_str());
                out.append(" (");
                text::push_decimal(&mut out, *status as u64);
                out.append(")");
            },
            ApiError::NetworkError { provider, msg } => {
                out.append("network error on ");
                out.append(provider.as_str());
                out.append(": ");
                out.append(msg.as_str());
            },
            ApiError::AllProvidersExhausted => {
                out.append("all providers exhausted");
            },
        }
        out
    }
}

// ---------------------------------------------------------------------------
// Laws
// ---------------------------------------------------------------------------

/// A dead key counts against the provider, and is never tried again.
pub proof fn dead_keys_are_not_retried(e: ApiErrorModel)
    requires
        e is Auth,
    ensures
        !e.retriable(),
        e.breaker_failure(),
{
}

/// Every error that does not count against the provider is either an empty
/// response or the end of the chain.
pub proof fn forgiven_errors(e: ApiErrorModel)
    ensures
        !e.breaker_failure() <==> e is EmptyResponse || e is AllProvidersExhausted,
        e is EmptyResponse ==> e.retriable(),
        e is AllProvidersExhausted ==> !e.retriable(),
{
}

/// The errors that are tried again with the same provider: rate limits, empty
/// responses, timeouts, network errors, and server errors of status 500 or more.
pub proof fn errors_to_try_again(e: ApiErrorModel)
    ensures
        e.retriable() <==> (e is RateLimited || e is EmptyResponse || e is Timeout
            || e is NetworkError || (e matches ApiErrorModel::ServerError { status, .. } && status
            >= 500)),
{
}

/// The errors that count against the provider.
pub proof fn errors_that_count(e: ApiErrorModel)
    ensures
        e.breaker_failure() <==> (e is Auth || e is RateLimited || e is Timeout || e is ServerError
            || e is NetworkError),
{
}

/// What each error says of itself: its class, the provider, and what else
/// tells it apart. The body of a response is not repeated.
pub proof fn errors_name_class_and_provider(
    provider: Seq<char>,
    status: u16,
    retry_after_secs: Option<u64>,
    secs: u64,
    text: Seq<char>,
)
    ensures
        (ApiErrorModel::Auth { provider, status, body: text }).message() == "auth error on "@
            + provider + " ("@ + text::decimal(status as nat) + ")"@,
        (ApiErrorModel::RateLimited { provider, retry_after_secs }).message() == "rate limited on "@
            + provider + " (retry after "@ + text::decimal_option(retry_after_secs) + "s)"@,
        (ApiErrorModel::EmptyResponse { provider }).message() == "empty response from "@ + provider,
        (ApiErrorModel::Timeout { provider, secs }).message() == "timeout on "@ + provider + " ("@
            + text::decimal(secs as nat) + "s)"@,
        (ApiErrorModel::ServerError { provider, status, body: text }).message()
            == "server error on "@ + provider + " ("@ + text::decimal(status as nat) + ")"@,
        (ApiErrorModel::NetworkError { provider, msg: text }).message() == "network error on "@
            + provider + ": "@ + text,
        ApiErrorModel::AllProvidersExhausted.message() == "all providers exhausted"@,
{
}

/// An error and its model are of the same class and hold the same.
pub proof fn models_of_errors(e: ApiError)
    ensures
        e matches ApiError::Auth { provider, status, body } ==> e@ == (ApiErrorModel::Auth {
            provider: provider@,
            status,
            body: body@,
        }),
        e matches ApiError::RateLimited { provider, retry_after_secs } ==> e@
            == (ApiErrorModel::RateLimited { provider: provider@, retry_after_secs }),
        e matches ApiError::EmptyResponse { provider } ==> e@ == (ApiErrorModel::EmptyResponse {
            provider: provider@,
        }),
        e matches ApiError::Timeout { provider, secs } ==> e@ == (ApiErrorModel::Timeout {
            provider: provider@,
            secs,
        }),
        e matches ApiError::ServerError { provider, status, body } ==> e@
            == (ApiErrorModel::ServerError { provider: provider@, status, body: body@ }),
        e matches ApiError::NetworkError { provider, msg } ==> e@ == (ApiErrorModel::NetworkError {
            provider: provider@,
            msg: msg@,
        }),
        e is AllProvidersExhausted ==> e@ is AllProvidersExhausted,
{
}

} // verus!
