//! What the status of the backend's reply means for the request.

use vstd::prelude::*;
use vstd::string::*;
use crate::error::{CTRLBackendError, ErrContent, ErrContentView};

verus! {

/// The text that `reqwest::StatusCode` prints for the status `code`: the
/// number, then the reason that is customary for it.
pub uninterp spec fn status_line(code: u16) -> Seq<char>;

/// Whether `code` can be the status of an HTTP reply: three digits.
pub open spec fn is_status_code(code: u16) -> bool {
    100 <= code <= 999
}

/// Whether the status `code` reports success.
pub open spec fn is_success(code: u16) -> bool {
    200 <= code < 300
}

/// The status of an HTTP reply: a code of three digits.
#[derive(Debug, Clone, Copy, PartialEq, Eq, Structural)]
pub struct Status {
    code: u16,
}

impl View for Status {
    type V = u16;

    closed spec fn view(&self) -> u16 {
        self.code
    }
}

impl Status {
    #[verifier::type_invariant]
    closed spec fn three_digits(&self) -> bool {
        is_status_code(self.code)
    }

    /// The status with the code `code`, where `code` has three digits.
    pub fn from_u16(code: u16) -> (status: Option<Status>)
        ensures
            status is Some <==> is_status_code(code),
            status matches Some(made) ==> made@ == code,
    {
        if 100 <= code && code <= 999 {
            Some(Status { code })
        } else {
            None
        }
    }

    /// The status's code.
    pub fn as_u16(&self) -> (code: u16)
        ensures
            code == self@,
            is_status_code(code),
    {
        proof {
            use_type_invariant(self);
        }
        self.code
    }

    /// Whether the status reports success.
    pub fn is_success(&self) -> (success: bool)
        ensures
            success == is_success(self@),
    {
        200 <= self.code && self.code < 300
    }
}

/// The decimal digit for `value`, which is under ten.
pub open spec fn digit(value: u16) -> char {
    "0123456789"@[value as int]
}

/// How a printed status begins: the three digits of `code`, then a space.
pub open spec fn status_head(code: u16) -> Seq<char> {
    seq![digit(code / 100), digit((code / 10) % 10), digit(code % 10), ' ']
}

/// Prints the status `code` as `reqwest::StatusCode` does, through
/// `StatusCode::from_u16` and the type's `Display`.
///
/// Trusted: for a code of three digits, the text depends on the code alone,
/// and it begins with the code in decimal and a space.
#[verifier::external_body]
fn print_status(code: u16) -> (line: String)
    requires
        is_status_code(code),
    ensures
        line@ == status_line(code),
        status_head(code).is_prefix_of(line@),
{
    match reqwest::StatusCode::from_u16(code) {
        Ok(status) => status.to_string(),
        Err(_) => String::new(),
    }
}

/// What to do with a reply, by its status.
#[derive(Debug)]
pub enum StatusVerdict {
    /// The reply is good: go on to its body.
    Accept,
    /// The reply is a failure that the status alone explains.
    Reject(CTRLBackendError),
    /// The reply is a failure that nothing accounts for: read what its body
    /// says, and report both with [`unexpected_status`].
    Unexpected,
}

/// The content of the error for a bad request.
pub open spec fn bad_request() -> ErrContentView {
    ErrContentView { details: "Bad request"@, debug: None }
}

/// The content of the error for a backend that is not there.
pub open spec fn not_found() -> ErrContentView {
    ErrContentView { details: "is ollama running?"@, debug: None }
}

/// The content of the error for the status `code`, which nothing accounts
/// for, and the text `body` that came with it.
pub open spec fn unaccounted(code: u16, body: Seq<char>) -> ErrContentView {
    ErrContentView {
        details: "Unexpected ollama status code"@,
        debug: Some(status_line(code) + ": "@ + body),
    }
}

/// Whether `err` is what the status `code` means for a reply whose body
/// reads `body`: a generic error for 400, a connection error for 404, and
/// for every other status an unexpected error that records the status and
/// the body.
pub open spec fn is_status_error(err: CTRLBackendError, code: u16, body: Seq<char>) -> bool {
    if code == 400 {
        err is LLM && err.content()@ == bad_request()
    } else if code == 404 {
        err is LLMConnection && err.content()@ == not_found()
    } else {
        err is Unexpected && err.content()@ == unaccounted(code, body)
    }
}

/// Judges a reply by its status: a success is accepted, 400 and 404 are
/// rejected with their errors, and every other status is unexpected.
pub fn judge_status(status: Status) -> (verdict: StatusVerdict)
    ensures
        is_success(status@) <==> verdict is Accept,
        status@ == 400 || status@ == 404 <==> verdict is Reject,
        status@ == 400 ==> (verdict matches StatusVerdict::Reject(err) && err is LLM
            && err.content()@ == bad_request()),
        status@ == 404 ==> (verdict matches StatusVerdict::Reject(err) && err is LLMConnection
            && err.content()@ == not_found()),
{
    let code = status.as_u16();
    if status.is_success() {
        StatusVerdict::Accept
    } else if code == 400 || code == 404 {
        StatusVerdict::Reject(handle_error_status_code(status, ""))
    } else {
        StatusVerdict::Unexpected
    }
}

/// Whether `text` records the status `code` and the body `body` as they
/// came: it begins with the code in decimal and ends with the body.
pub open spec fn records(text: Seq<char>, code: u16, body: Seq<char>) -> bool {
    &&& status_head(code).is_prefix_of(text)
    &&& body.len() <= text.len()
    &&& text.subrange(text.len() - body.len(), text.len() as int) == body
}

/// The error for a reply whose status nothing accounts for, and whose body
/// reads `body`. Its cause records the status and the body.
pub fn unexpected_status(status: Status, body: &str) -> (err: CTRLBackendError)
    ensures
        err is Unexpected,
        err.content()@ == unaccounted(status@, body@),
        err.content()@.debug matches Some(text) && records(text, status@, body@),
{
    proof {
        reveal_strlit("Unexpected ollama status code");
    }
    let mut cause = print_status(status.as_u16());
    cause.append(": ");
    cause.append(body);
    assert(cause@.subrange(cause@.len() - body@.len(), cause@.len() as int) =~= body@);
    CTRLBackendError::Unexpected(ErrContent::with_cause("Unexpected ollama status code", cause))
}

/// The error for a reply that did not succeed, by its status and the text
/// `body` that came with it.
pub fn handle_error_status_code(status: Status, body: &str) -> (err: CTRLBackendError)
    ensures
        is_status_error(err, status@, body@),
        err is Unexpected ==> (err.content()@.debug matches Some(text) && records(
            text,
            status@,
            body@,
        )),
{
    proof {
        reveal_strlit("Bad request");
        reveal_strlit("is ollama running?");
    }
    let code = status.as_u16();
    if code == 400 {
        CTRLBackendError::LLM(ErrContent::from("Bad request"))
    } else if code == 404 {
        CTRLBackendError::LLMConnection(ErrContent::from("is ollama running?"))
    } else {
        unexpected_status(status, body)
    }
}

} // verus!
