//! What a failure of the transport means for the request.

use vstd::prelude::*;
use vstd::string::*;
use crate::error::{CTRLBackendError, ErrContent, ErrContentView};

verus! {

/// `reqwest::Error`, which Verus carries without looking inside.
#[verifier::external_type_specification]
#[verifier::external_body]
pub struct ExTransportError(reqwest::Error);

/// Whether `reqwest::Error::is_timeout` finds a timeout in `err` or in the
/// chain of errors that caused it.
pub uninterp spec fn transport_timed_out(err: reqwest::Error) -> bool;

/// `reqwest::Error::is_timeout`: whether the error goes back to a timeout.
///
/// Trusted: the answer depends on the error alone, on what it holds and on
/// the errors that caused it.
pub assume_specification[ reqwest::Error::is_timeout ](err: &reqwest::Error) -> (timed_out: bool)
    ensures
        timed_out == transport_timed_out(*err),
;

/// How every account begins that the transport gives of an error: the
/// type's name and the first of its fields.
pub open spec fn account_head() -> Seq<char> {
    "reqwest::Error { kind: "@
}

/// Whether `cause` reads as the transport's account of an error.
pub open spec fn is_account(cause: Seq<char>) -> bool {
    account_head().is_prefix_of(cause)
}

/// Prints the transport's account of `err`, that is `err` with `{:?}`,
/// through `<reqwest::Error as Debug>::fmt`.
///
/// Trusted: the account begins with the type's name and the kind of the
/// error. What follows is not claimed: where an error of the operating
/// system lies behind `err`, the account holds the system's own words for
/// it, which differ from one machine to the next.
#[verifier::external_body]
fn print_account(err: &reqwest::Error) -> (account: String)
    ensures
        is_account(account@),
{
    format!("{:?}", err)
}

/// The error for a request that did not get through: a timeout error where
/// the transport `timed_out`, a generic error otherwise, in both cases with
/// the transport's own account `cause`.
pub open spec fn is_transport_failure(
    err: CTRLBackendError,
    timed_out: bool,
    cause: Seq<char>,
) -> bool {
    if timed_out {
        &&& err is LLMTimeoutError
        &&& err.content()@ == (ErrContentView { details: "Request timeout"@, debug: Some(cause) })
    } else {
        &&& err is LLM
        &&& err.content()@ == (ErrContentView {
            details: "Unexpected API call failure"@,
            debug: Some(cause),
        })
    }
}

/// The error for a read that broke off while the reply was streaming, with
/// the transport's own account `cause`.
pub open spec fn is_read_failure(err: CTRLBackendError, cause: Seq<char>) -> bool {
    &&& err is LLM
    &&& err.content()@ == (ErrContentView {
        details: "Failed to get bytes from ollama response"@,
        debug: Some(cause),
    })
}

/// The error for a request that did not get through.
pub fn transport_failure(timed_out: bool, cause: String) -> (err: CTRLBackendError)
    ensures
        is_transport_failure(err, timed_out, cause@),
{
    proof {
        reveal_strlit("Request timeout");
        reveal_strlit("Unexpected API call failure");
    }
    if timed_out {
        CTRLBackendError::LLMTimeoutError(ErrContent::with_cause("Request timeout", cause))
    } else {
        CTRLBackendError::LLM(ErrContent::with_cause("Unexpected API call failure", cause))
    }
}

/// The error for the failure `err` of the transport: a timeout error where
/// the transport timed out, a generic error otherwise, in both cases with
/// the transport's account of `err` as its cause.
pub fn extract_ollama_api_error(err: reqwest::Error) -> (failure: CTRLBackendError)
    ensures
        failure is LLMTimeoutError <==> transport_timed_out(err),
        failure.content()@.debug matches Some(cause) && is_account(cause) && is_transport_failure(
            failure,
            transport_timed_out(err),
            cause,
        ),
{
    let timed_out = err.is_timeout();
    let cause = print_account(&err);
    transport_failure(timed_out, cause)
}

/// The error for a read that broke off while the reply was streaming.
pub fn read_failure(cause: String) -> (err: CTRLBackendError)
    ensures
        is_read_failure(err, cause@),
{
    proof {
        reveal_strlit("Failed to get bytes from ollama response");
    }
    CTRLBackendError::LLM(ErrContent::with_cause("Failed to get bytes from ollama response", cause))
}

/// The error for the failure `err` of a read while the reply was streaming,
/// with the transport's account of `err` as its cause.
pub fn extract_read_error(err: reqwest::Error) -> (failure: CTRLBackendError)
    ensures
        failure.content()@.debug matches Some(cause) && is_account(cause) && is_read_failure(
            failure,
            cause,
        ),
{
    read_failure(print_account(&err))
}

} // verus!
