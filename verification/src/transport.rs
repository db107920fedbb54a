//! What the library needs to know of a request that never got a response.

use vstd::prelude::*;

verus! {

/// The error of reqwest, carried through without looking inside.
#[verifier::external_type_specification]
#[verifier::external_body]
pub struct ExTransportError(reqwest::Error);

/// What `reqwest::Error::is_timeout` says of an error.
pub uninterp spec fn failure_timed_out(e: reqwest::Error) -> bool;

/// The number of the status that `reqwest::Error::status` gives for an error.
pub uninterp spec fn failure_status(e: reqwest::Error) -> Option<u16>;

/// The text that `Display` of `reqwest::Error` gives for an error.
pub uninterp spec fn failure_text(e: reqwest::Error) -> Seq<char>;

/// Calls `reqwest::Error::is_timeout`: whether a timeout is among the causes of the error.
#[verifier::external_body]
pub(crate) fn timed_out(e: &reqwest::Error) -> (r: bool)
    ensures
        r == failure_timed_out(*e),
{
    e.is_timeout()
}

/// Calls `reqwest::Error::status`: the status of the response that the error
/// was made from, if it was made from one.
#[verifier::external_body]
pub(crate) fn status(e: &reqwest::Error) -> (r: Option<u16>)
    ensures
        r == failure_status(*e),
{
    e.status().map(|s| s.as_u16())
}

/// Calls `to_string` of `reqwest::Error`: what the error says of itself.
#[verifier::external_body]
pub(crate) fn message(e: &reqwest::Error) -> (r: String)
    ensures
        r@ == failure_text(*e),
{
    e.to_string()
}

} // verus!
