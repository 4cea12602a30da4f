//! The backend's answer: a JSON object whose member `response` holds the
//! generated text, or a piece of it.
//!
//! Two things are settled here by choice. A JSON object that names
//! `response` more than once is not refused: the member named last counts.
//! And an object without a string under `response`, whether the member is
//! missing or holds something else, is reported in this crate's own words,
//! since the parser has accepted the object and has no account to give.

use vstd::prelude::*;
use vstd::string::*;
use vstd::std_specs::convert::TryFromSpecImpl;
use vstd::utf8::encode_utf8;
use crate::error::{CTRLBackendError, ErrContent, ErrContentView};
use crate::json::{parse_object, parsed_members, string_member};
use crate::text::join;

verus! {

/// One unit of generated text, as the backend sends it.
#[derive(Debug)]
pub struct Response {
    /// The generated text.
    pub response: String,
}

/// The key of the member that holds the generated text.
pub open spec fn response_key() -> Seq<char> {
    "response"@
}

/// The generated text that `body` holds: the string under `response`, where
/// the whole of `body` is one JSON object that has such a member. Of two
/// members with one key a JSON object keeps the later.
pub open spec fn fragment_text(body: Seq<u8>) -> Option<Seq<char>> {
    match parsed_members(body) {
        Ok(members) => if members.contains_key(response_key()) {
            Some(members[response_key()])
        } else {
            None
        },
        Err(_) => None,
    }
}

/// The cause that is reported for a JSON object without the member.
pub open spec fn missing_member_text() -> Seq<char> {
    "missing string member `response`"@
}

/// The sentence for bytes that are no answer.
pub open spec fn bytes_details() -> Seq<char> {
    "Failed to parse ollama response text to expected json from bytes"@
}

/// The sentence for a text that is no answer: it quotes the text.
pub open spec fn text_details(text: Seq<char>) -> Seq<char> {
    "Failed to parse ollama response text to expected json: text was "@ + text
}

/// Why `body` holds no answer: what the parser says of bytes that are no
/// JSON object, and for a JSON object that the member is missing.
pub open spec fn failure_cause(body: Seq<u8>) -> Seq<char> {
    match parsed_members(body) {
        Ok(_) => missing_member_text(),
        Err(account) => account,
    }
}

/// Whether `err` reports, under the sentence `details`, that `body` holds
/// no answer: a generic error that carries the cause.
pub open spec fn is_parse_failure(err: CTRLBackendError, details: Seq<char>, body: Seq<u8>) -> bool {
    &&& err is LLM
    &&& err.content()@ == (ErrContentView { details, debug: Some(failure_cause(body)) })
}

/// The answer, given how the search for the member `response` ended: with
/// the string found, with no such string in the JSON object, or with the
/// parser's account `cause` of what is no JSON object. Both failures are
/// generic errors under the sentence `details`.
pub fn response_from_lookup(
    lookup: Result<Option<String>, String>,
    details: &str,
) -> (answer: Result<Response, CTRLBackendError>)
    requires
        details@.len() > 0,
    ensures
        match lookup {
            Ok(Some(text)) => answer matches Ok(response) && response.response@ == text@,
            Ok(None) => answer matches Err(err) && err is LLM && err.content()@ == (
                ErrContentView { details: details@, debug: Some(missing_member_text()) }
            ),
            Err(cause) => answer matches Err(err) && err is LLM && err.content()@ == (
                ErrContentView { details: details@, debug: Some(cause@) }
            ),
        },
{
    match lookup {
        Ok(Some(text)) => Ok(Response { response: text }),
        Ok(None) => Err(
            CTRLBackendError::LLM(
                ErrContent::with_cause(
                    details,
                    String::from_str("missing string member `response`"),
                ),
            ),
        ),
        Err(cause) => Err(CTRLBackendError::LLM(ErrContent::with_cause(details, cause))),
    }
}

/// Reads `body` as an answer, and reports a failure under the sentence
/// `details`.
fn parse_response(body: &[u8], details: &str) -> (answer: Result<Response, CTRLBackendError>)
    requires
        details@.len() > 0,
    ensures
        match fragment_text(body@) {
            Some(text) => answer matches Ok(response) && response.response@ == text,
            None => answer matches Err(err) && is_parse_failure(err, details@, body@),
        },
{
    let lookup = match parse_object(body) {
        Ok(object) => Ok(string_member(&object, "response")),
        Err(account) => Err(account),
    };
    response_from_lookup(lookup, details)
}

impl TryFrom<String> for Response {
    type Error = CTRLBackendError;

    /// Reads `text` as an answer. A failure quotes `text`.
    fn try_from(text: String) -> (answer: Result<Response, CTRLBackendError>)
        ensures
            match fragment_text(encode_utf8(text@)) {
                Some(fragment) => answer matches Ok(response) && response.response@ == fragment,
                None => answer matches Err(err) && is_parse_failure(
                    err,
                    text_details(text@),
                    encode_utf8(text@),
                ),
            },
    {
        proof {
            reveal_strlit("Failed to parse ollama response text to expected json: text was ");
        }
        let details = join(
            "Failed to parse ollama response text to expected json: text was ",
            text.as_str(),
        );
        parse_response(text.as_str().as_bytes(), details.as_str())
    }
}

impl TryFromSpecImpl<String> for Response {
    open spec fn obeys_try_from_spec() -> bool {
        false
    }

    open spec fn try_from_spec(text: String) -> Result<Response, CTRLBackendError> {
        arbitrary()
    }
}

impl<'a> TryFrom<&'a [u8]> for Response {
    type Error = CTRLBackendError;

    /// Reads `bytes` as an answer.
    fn try_from(bytes: &'a [u8]) -> (answer: Result<Response, CTRLBackendError>)
        ensures
            match fragment_text(bytes@) {
                Some(fragment) => answer matches Ok(response) && response.response@ == fragment,
                None => answer matches Err(err) && is_parse_failure(err, bytes_details(), bytes@),
            },
    {
        proof {
            reveal_strlit("Failed to parse ollama response text to expected json from bytes");
        }
        parse_response(bytes, "Failed to parse ollama response text to expected json from bytes")
    }
}

impl<'a> TryFromSpecImpl<&'a [u8]> for Response {
    open spec fn obeys_try_from_spec() -> bool {
        false
    }

    open spec fn try_from_spec(bytes: &'a [u8]) -> Result<Response, CTRLBackendError> {
        arbitrary()
    }
}

} // verus!
