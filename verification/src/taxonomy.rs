//! The client-facing classes of upstream failures.
//!
//! | Class           | Trigger             | Policy                               |
//! |-----------------|---------------------|--------------------------------------|
//! | `AuthError`     | 401, 403            | do not retry, alarm at once          |
//! | `RateLimited`   | 429 (+ Retry-After) | back off, respect Retry-After        |
//! | `EmptyResponse` | 200, blank body     | retry twice, then advance the chain  |
//! | `Timeout`       | 408, or timed out   | retry, then advance the chain        |

use crate::{text, transport};
use vstd::prelude::*;

verus! {

/// How often an empty response is retried before the chain advances.
pub const EMPTY_RESPONSE_MAX_RETRIES: u32 = 2;

#[allow(inconsistent_fields)]
#[derive(Debug, Clone, PartialEq, Eq)]
pub enum TaxonomyError {
    /// 401 or 403: the key is dead or revoked.
    AuthError { status: u16, body: String },
    /// 429: back off, for as long as Retry-After says where it is present.
    RateLimited { retry_after_secs: Option<u64> },
    /// 200 with a blank body.
    EmptyResponse,
    /// The request timed out.
    Timeout { secs: u64 },
    /// Anything else.
    Other { status: Option<u16>, msg: String },
}

/// What an error is, as a mathematical value.
#[allow(inconsistent_fields)]
pub enum TaxonomyModel {
    AuthError { status: u16, body: Seq<char> },
    RateLimited { retry_after_secs: Option<u64> },
    EmptyResponse,
    Timeout { secs: u64 },
    Other { status: Option<u16>, msg: Seq<char> },
}

impl View for TaxonomyError {
    type V = TaxonomyModel;

    open spec fn view(&self) -> TaxonomyModel {
        match *self {
            TaxonomyError::AuthError { status, body } => TaxonomyModel::AuthError {
                status,
                body: body@,
            },
            TaxonomyError::RateLimited { retry_after_secs } => TaxonomyModel::RateLimited {
                retry_after_secs,
            },
            TaxonomyError::EmptyResponse => TaxonomyModel::EmptyResponse,
            TaxonomyError::Timeout { secs } => TaxonomyModel::Timeout { secs },
            TaxonomyError::Other { status, msg } => TaxonomyModel::Other { status, msg: msg@ },
        }
    }
}

impl TaxonomyModel {
    /// The class of a response.
    pub open spec fn of_response(
        status: u16,
        retry_after_secs: Option<u64>,
        body: Seq<char>,
    ) -> TaxonomyModel {
        if status == 401 || status == 403 {
            TaxonomyModel::AuthError { status, body }
        } else if status == 429 {
            TaxonomyModel::RateLimited { retry_after_secs }
        } else if status == 408 {
            TaxonomyModel::Timeout {
                secs: match retry_after_secs {
                    Some(secs) => secs,
                    None => 0,
                },
            }
        } else if status == 200 && text::blank(body) {
            TaxonomyModel::EmptyResponse
        } else {
            TaxonomyModel::Other { status: Some(status), msg: body }
        }
    }

    /// The class of a request that got no response.
    pub open spec fn of_failure(timed_out: bool, status: Option<u16>, msg: Seq<char>) -> TaxonomyModel {
        if timed_out {
            TaxonomyModel::Timeout { secs: 0 }
        } else {
            TaxonomyModel::Other { status, msg }
        }
    }

    /// Whether the request should be retried before the chain advances.
    pub open spec fn retriable(self) -> bool {
        !(self is AuthError)
    }

    /// Whether a human has to step in.
    pub open spec fn alarms(self) -> bool {
        self is AuthError
    }

    /// How often a request may be retried before the chain advances.
    pub open spec fn retries(self) -> u32 {
        match self {
            TaxonomyModel::EmptyResponse => EMPTY_RESPONSE_MAX_RETRIES,
            TaxonomyModel::AuthError { .. } => 0,
            _ => 1,
        }
    }

    /// What the error says of itself.
    pub open spec fn message(self) -> Seq<char> {
        match self {
            TaxonomyModel::AuthError { status, .. } => "auth error ("@ + text::decimal(
                status as nat,
            ) + ") — dead key, do not retry, alarm"@,
            TaxonomyModel::RateLimited {
                retry_after_secs,
            } => "rate limited — back off (retry after "@ + text::decimal_option(retry_after_secs)
                + "s)"@,
            TaxonomyModel::EmptyResponse => "empty response — retry up to "@ + text::decimal(
                EMPTY_RESPONSE_MAX_RETRIES as nat,
            ) + "x then advance chain"@,
            TaxonomyModel::Timeout { secs } => "timeout after "@ + text::decimal(secs as nat)
                + "s — retry then advance chain"@,
            TaxonomyModel::Other { status, msg } => "unclassified error (status "@
                + text::decimal_option(
                match status {
                    Some(s) => Some(s as u64),
                    None => None,
                },
            ) + "): "@ + msg,
        }
    }
}

impl TaxonomyError {
    /// Whether the request should be retried before the chain advances.
    pub fn should_retry(&self) -> (r: bool)
        ensures
            r == self@.retriable(),
    {
        !matches!(self, TaxonomyError::AuthError { .. })
    }

    /// Whether a human has to step in.
    pub fn should_alarm(&self) -> (r: bool)
        ensures
            r == self@.alarms(),
    {
        matches!(self, TaxonomyError::AuthError { .. })
    }

    /// How often the request may be retried before the chain advances.
    pub fn max_retries(&self) -> (r: u32)
        ensures
            r == self@.retries(),
    {
        match self {
            TaxonomyError::EmptyResponse => EMPTY_RESPONSE_MAX_RETRIES,
            TaxonomyError::AuthError { .. } => 0,
            _ => 1,
        }
    }

    /// The class of a response with the given status, `Retry-After` value and body.
    pub fn classify(status: u16, retry_after_secs: Option<u64>, body: String) -> (r: TaxonomyError)
        ensures
            r@ == TaxonomyModel::of_response(status, retry_after_secs, body@),
    {
        if status == 401 || status == 403 {
            TaxonomyError::AuthError { status, body }
        } else if status == 429 {
            TaxonomyError::RateLimited { retry_after_secs }
        } else if status == 408 {
            TaxonomyError::Timeout { secs: retry_after_secs.unwrap_or(0) }
        } else if status == 200 && text::is_blank(body.as_str()) {
            TaxonomyError::EmptyResponse
        } else {
            TaxonomyError::Other { status: Some(status), msg: body }
        }
    }

    /// The class of a request that got no response.
    pub fn of_failure(timed_out: bool, status: Option<u16>, msg: String) -> (r: TaxonomyError)
        ensures
            r@ == TaxonomyModel::of_failure(timed_out, status, msg@),
    {
        if timed_out {
            TaxonomyError::Timeout { secs: 0 }
        } else {
            TaxonomyError::Other { status, msg }
        }
    }

    /// What the error says of itself.
    pub fn to_string(&self) -> (r: String)
        ensures
            r@ == self@.message(),
    {
        let mut out = String::new();
        match self {
            TaxonomyError::AuthError { status, .. } => {
                out.append("auth error (");
                text::push_decimal(&mut out, *status as u64);
                out.append(") — dead key, do not retry, alarm");
            },
            TaxonomyError::RateLimited { retry_after_secs } => {
                out.append("rate limited — back off (retry after ");
                text::push_decimal_option(&mut out, *retry_after_secs);
                out.append("s)");
            },
            TaxonomyError::EmptyResponse => {
                out.append("empty response — retry up to ");
                text::push_decimal(&mut out, EMPTY_RESPONSE_MAX_RETRIES as u64);
                out.append("x then advance chain");
            },
            TaxonomyError::Timeout { secs } => {
                out.append("timeout after ");
                text::push_decimal(&mut out, *secs);
                out.append("s — retry then advance chain");
            },
            TaxonomyError::Other { status, msg } => {
                let code: Option<u64> = match status {
                    Some(s) => Some(*s as u64),
                    None => None,
                };
                out.append("unclassified error (status ");
                text::push_decimal_option(&mut out, code);
                out.append("): ");
                out.append(msg.as_str());
            },
        }
        out
    }
}

/// A request that got no response has either timed out or failed otherwise.
impl From<reqwest::Error> for TaxonomyError {
    fn from(e: reqwest::Error) -> (r: TaxonomyError)
        ensures
            r@ == TaxonomyModel::of_failure(
                transport::failure_timed_out(e),
                transport::failure_status(e),
                transport::failure_text(e),
            ),
    {
        TaxonomyError::of_failure(
            transport::timed_out(&e),
            transport::status(&e),
            transport::message(&e),
        )
    }
}

impl vstd::std_specs::convert::FromSpecImpl<reqwest::Error> for TaxonomyError {
    open spec fn obeys_from_spec() -> bool {
        false
    }

    open spec fn from_spec(e: reqwest::Error) -> TaxonomyError {
        arbitrary()
    }
}

// ---------------------------------------------------------------------------
// Laws
// ---------------------------------------------------------------------------

/// An error is retried exactly where it has a retry budget, and alarms exactly
/// where it has none.
pub proof fn alarm_instead_of_retry(e: TaxonomyModel)
    ensures
        e.retriable() <==> e.retries() > 0,
        e.alarms() <==> e.retries() == 0,
{
}

/// A response falls into the class of dead keys exactly where its status is 401 or 403.
pub proof fn auth_statuses(status: u16, retry_after_secs: Option<u64>, body: Seq<char>)
    ensures
        TaxonomyModel::of_response(status, retry_after_secs, body) is AuthError <==> status == 401
            || status == 403,
{
}

/// A response counts as empty exactly where its status is 200 and nothing is
/// left of its body after trimming.
pub proof fn empty_responses(status: u16, retry_after_secs: Option<u64>, body: Seq<char>)
    ensures
        TaxonomyModel::of_response(status, retry_after_secs, body) is EmptyResponse <==> status
            == 200 && text::trimmed(body).len() == 0,
{
    text::blank_trims_to_nothing(body);
}

/// A request that got no response has timed out or is unclassified; it never alarms.
pub proof fn lost_requests_are_routine(timed_out: bool, status: Option<u16>, msg: Seq<char>)
    ensures
        ({
            let e = TaxonomyModel::of_failure(timed_out, status, msg);
            &&& e is Timeout <==> timed_out
            &&& e is Other <==> !timed_out
            &&& !e.alarms()
        }),
{
}

/// Every response falls into one class, by its status and, for a 200, by
/// whether its body is blank; the class holds what the response said.
pub proof fn responses_by_status(status: u16, retry_after_secs: Option<u64>, body: Seq<char>)
    ensures
        ({
            let e = TaxonomyModel::of_response(status, retry_after_secs, body);
            &&& status == 401 || status == 403 ==> e == (TaxonomyModel::AuthError { status, body })
            &&& status == 429 ==> e == (TaxonomyModel::RateLimited { retry_after_secs })
            &&& status == 408 && retry_after_secs is None ==> e == (TaxonomyModel::Timeout {
                secs: 0,
            })
            &&& (status == 408 && retry_after_secs is Some) ==> e == (TaxonomyModel::Timeout {
                secs: retry_after_secs->0,
            })
            &&& status == 200 && text::trimmed(body).len() == 0 ==> e is EmptyResponse
            &&& (status != 401 && status != 403 && status != 429 && status != 408 && !(status == 200
                && text::trimmed(body).len() == 0)) ==> e == (TaxonomyModel::Other {
                status: Some(status),
                msg: body,
            })
        }),
{
    text::blank_trims_to_nothing(body);
}

/// A request without a response has timed out, or is unclassified with what is
/// known of it.
pub proof fn failures_by_cause(timed_out: bool, status: Option<u16>, msg: Seq<char>)
    ensures
        TaxonomyModel::of_failure(true, status, msg) == (TaxonomyModel::Timeout { secs: 0 }),
        TaxonomyModel::of_failure(false, status, msg) == (TaxonomyModel::Other { status, msg }),
{
}

/// Empty responses are retried twice, dead keys not at all and alarm, and
/// everything else is retried once.
pub proof fn budgets_by_class(e: TaxonomyModel)
    ensures
        e is AuthError ==> e.retries() == 0 && !e.retriable() && e.alarms(),
        e is EmptyResponse ==> e.retries() == 2,
        e is RateLimited || e is Timeout || e is Other ==> e.retries() == 1,
        !(e is AuthError) ==> e.retriable() && !e.alarms(),
{
}

/// What each class says of itself: what happened, and what to do about it.
pub proof fn classes_name_their_policy(
    status: u16,
    seen: Option<u16>,
    retry_after_secs: Option<u64>,
    secs: u64,
    text: Seq<char>,
)
    ensures
        (TaxonomyModel::AuthError { status, body: text }).message() == "auth error ("@
            + text::decimal(status as nat) + ") — dead key, do not retry, alarm"@,
        (TaxonomyModel::RateLimited { retry_after_secs }).message()
            == "rate limited — back off (retry after "@ + text::decimal_option(retry_after_secs)
            + "s)"@,
        TaxonomyModel::EmptyResponse.message() == "empty response — retry up to "@ + text::decimal(
            2,
        ) + "x then advance chain"@,
        (TaxonomyModel::Timeout { secs }).message() == "timeout after "@ + text::decimal(
            secs as nat,
        ) + "s — retry then advance chain"@,
        (TaxonomyModel::Other { status: None, msg: text }).message()
            == "unclassified error (status "@ + text::decimal_option(None) + "): "@ + text,
        (TaxonomyModel::Other { status: Some(status), msg: text }).message()
            == "unclassified error (status "@ + text::decimal_option(Some(status as u64)) + "): "@
            + text,
{
}

/// An error and its model are of the same class and hold the same.
pub proof fn models_of_classes(e: TaxonomyError)
    ensures
        e matches TaxonomyError::AuthError { status, body } ==> e@ == (TaxonomyModel::AuthError {
            status,
            body: body@,
        }),
        e matches TaxonomyError::RateLimited { retry_after_secs } ==> e@
            == (TaxonomyModel::RateLimited { retry_after_secs }),
        e is EmptyResponse ==> e@ is EmptyResponse,
        e matches TaxonomyError::Timeout { secs } ==> e@ == (TaxonomyModel::Timeout { secs }),
        e matches TaxonomyError::Other { status, msg } ==> e@ == (TaxonomyModel::Other {
            status,
            msg: msg@,
        }),
{
}

} // verus!
