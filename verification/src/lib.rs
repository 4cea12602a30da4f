//! Client-side gateway to a text-generation backend, without the transport.
//!
//! The crate prepares the request that asks the backend to generate text,
//! judges the status of the reply, decodes the reply's body (whole, or chunk
//! by chunk while it streams) and renders every failure as one of four kinds
//! of [`CTRLBackendError`]. Sending and receiving are left to the caller.
//!
//! A reply is read leniently in one respect: a JSON object that names its
//! member `response` more than once is taken with the value named last, not
//! refused (see [`response`]).

pub mod error;
pub mod json;
pub mod ollama;
pub mod options;
pub mod prompt;
pub mod request;
pub mod response;
pub mod status;
pub mod text;
pub mod transport;

pub use error::{CTRLBackendError, ErrContent, ErrContentView};
pub use options::{LLMRunOptions, LLMRunOptionsView, Model};
pub use prompt::{TextTask, Tone};

use vstd::prelude::*;
use vstd::string::*;
use ollama::{is_streaming, stream_with, Policy, Streaming};
use text::{debug_quoted, quote};

verus! {

/// Prepares the exchange that streams the answer to the task `task` on
/// `text`. The caller is handed each fragment as it comes.
pub fn stream_text_task(text: String, opts: LLMRunOptions, task: TextTask) -> (prepared: Streaming)
    ensures
        is_streaming(
            prepared,
            task.prompt_text(text@),
            opts@.url,
            opts@.model,
            Policy::PassThrough,
        ),
{
    stream_with(task.prompt(text), opts.url(), opts.model(), Policy::PassThrough)
}

/// Prepares the exchange that streams `text` rewritten in `tone`. The
/// caller is handed each fragment as it comes.
pub fn stream_change_tone_task(text: String, opts: LLMRunOptions, tone: Tone) -> (prepared:
    Streaming)
    ensures
        is_streaming(
            prepared,
            prompt::change_tone_prompt_text(text@, tone),
            opts@.url,
            opts@.model,
            Policy::PassThrough,
        ),
{
    let prompt = prompt::change_tone_prompt(text, tone);
    stream_with(prompt, opts.url(), opts.model(), Policy::PassThrough)
}

/// How an exchange is reported once it has ended.
#[derive(Debug)]
pub struct Settlement {
    /// The line for the diagnostic log, where the exchange failed.
    pub log: Option<String>,
    /// What the caller gets: nothing more on success, the user's message on
    /// failure.
    pub outcome: Result<(), String>,
}

/// Settles an exchange that ended with `result`. A failure is reported
/// twice: the developer's line, quoted, goes to the log, and the user's
/// message goes to the caller. A success leaves nothing to log.
pub fn settle(result: Result<(), CTRLBackendError>) -> (settlement: Settlement)
    ensures
        match result {
            Ok(_) => settlement.log is None && settlement.outcome is Ok,
            Err(err) => {
                &&& settlement.log matches Some(line)
                &&& line@ == debug_quoted(err.debug_text())
                &&& settlement.outcome matches Err(message)
                &&& message@ == err.display_text()
            },
        },
{
    match result {
        Ok(_) => Settlement { log: None, outcome: Ok(()) },
        Err(err) => Settlement {
            log: Some(quote(err.debug().as_str())),
            outcome: Err(err.to_string()),
        },
    }
}

} // verus!
