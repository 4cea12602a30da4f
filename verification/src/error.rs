//! The closed set of failures that the gateway reports.

use vstd::prelude::*;
use vstd::string::*;
use crate::text::{debug_quoted, debug_text, join, quote};

verus! {

/// What an [`ErrContent`] holds, as mathematical text.
pub struct ErrContentView {
    /// The sentence meant for the user.
    pub details: Seq<char>,
    /// The diagnostic text of the underlying cause, where one was captured.
    pub debug: Option<Seq<char>>,
}

/// The payload of every error: a sentence for the user and, where a cause
/// was captured, its diagnostic text. The sentence is never empty.
#[derive(Debug)]
pub struct ErrContent {
    details: String,
    debug: Option<String>,
}

impl View for ErrContent {
    type V = ErrContentView;

    closed spec fn view(&self) -> ErrContentView {
        ErrContentView {
            details: self.details@,
            debug: match self.debug {
                Some(cause) => Some(cause@),
                None => None,
            },
        }
    }
}

/// The text that stands for the cause where none was captured.
pub open spec fn null_text() -> Seq<char> {
    "null"@
}

impl ErrContentView {
    /// The diagnostic text, or `null` where there is none.
    pub open spec fn debug_or_null(self) -> Seq<char> {
        match self.debug {
            Some(cause) => cause,
            None => null_text(),
        }
    }
}

impl ErrContent {
    #[verifier::type_invariant]
    closed spec fn details_present(&self) -> bool {
        self.details@.len() > 0
    }

    /// An error content with the sentence `text` and no cause.
    pub fn from(text: &str) -> (content: ErrContent)
        requires
            text@.len() > 0,
        ensures
            content@ == (ErrContentView { details: text@, debug: None }),
    {
        ErrContent { details: String::from_str(text), debug: None }
    }

    /// An error content with the sentence `details` and the diagnostic text
    /// `cause`.
    pub fn with_cause(details: &str, cause: String) -> (content: ErrContent)
        requires
            details@.len() > 0,
        ensures
            content@ == (ErrContentView { details: details@, debug: Some(cause@) }),
    {
        ErrContent { details: String::from_str(details), debug: Some(cause) }
    }

    /// An error content with the sentence `details`, whose diagnostic text is
    /// what `{:?}` prints for `err`.
    pub fn from_error<E: core::fmt::Debug>(details: &str, err: &E) -> (content: ErrContent)
        requires
            details@.len() > 0,
        ensures
            content@.details == details@,
            content@.debug is Some,
    {
        ErrContent::with_cause(details, debug_text(err))
    }

    /// The sentence meant for the user.
    pub fn details(&self) -> (text: String)
        ensures
            text@ == self@.details,
            text@.len() > 0,
    {
        proof {
            use_type_invariant(self);
        }
        self.details.clone()
    }

    /// The diagnostic text of the cause, or `null` where none was captured.
    pub fn debug(&self) -> (text: String)
        ensures
            text@ == self@.debug_or_null(),
    {
        match &self.debug {
            Some(cause) => cause.clone(),
            None => String::from_str("null"),
        }
    }
}

/// A failure of the gateway: one of four kinds, each with its content.
#[derive(Debug)]
pub enum CTRLBackendError {
    /// The request ran past its deadline.
    LLMTimeoutError(ErrContent),
    /// The backend was not found where the URL points.
    LLMConnection(ErrContent),
    /// The backend or the exchange with it failed in an ordinary way.
    LLM(ErrContent),
    /// The backend answered with a status that nothing else accounts for.
    Unexpected(ErrContent),
}

impl CTRLBackendError {
    /// The content that the error carries, whatever its kind.
    pub open spec fn content(&self) -> ErrContent {
        match self {
            CTRLBackendError::LLMTimeoutError(content) => *content,
            CTRLBackendError::LLMConnection(content) => *content,
            CTRLBackendError::LLM(content) => *content,
            CTRLBackendError::Unexpected(content) => *content,
        }
    }

    /// The words that name the error's kind to the user.
    pub open spec fn kind_text(&self) -> Seq<char> {
        match self {
            CTRLBackendError::LLMTimeoutError(_) => "LLM timeout error"@,
            CTRLBackendError::LLMConnection(_) => "LLM connection error"@,
            CTRLBackendError::LLM(_) => "LLM generic error"@,
            CTRLBackendError::Unexpected(_) => "Unexpected error"@,
        }
    }

    /// The sentence for the user: the kind, then the content's sentence. An
    /// unexpected error shows its kind alone.
    pub open spec fn details_text(&self) -> Seq<char> {
        match self {
            CTRLBackendError::Unexpected(_) => self.kind_text(),
            _ => self.kind_text() + ": "@ + self.content()@.details,
        }
    }

    /// The line for the developer: the user's sentence, then the cause
    /// between quotes.
    pub open spec fn debug_text(&self) -> Seq<char> {
        self.details_text() + " with "@ + debug_quoted(self.content()@.debug_or_null())
    }

    /// The text under which the error is shown: the gateway's name, then the
    /// user's sentence.
    pub open spec fn display_text(&self) -> Seq<char> {
        "CTRL-B backend: "@ + self.details_text()
    }

    fn kind_name(&self) -> (name: &'static str)
        ensures
            name@ == self.kind_text(),
    {
        match self {
            CTRLBackendError::LLMTimeoutError(_) => "LLM timeout error",
            CTRLBackendError::LLMConnection(_) => "LLM connection error",
            CTRLBackendError::LLM(_) => "LLM generic error",
            CTRLBackendError::Unexpected(_) => "Unexpected error",
        }
    }

    fn content_ref(&self) -> (content: &ErrContent)
        ensures
            *content == self.content(),
    {
        match self {
            CTRLBackendError::LLMTimeoutError(content) => content,
            CTRLBackendError::LLMConnection(content) => content,
            CTRLBackendError::LLM(content) => content,
            CTRLBackendError::Unexpected(content) => content,
        }
    }

    /// The sentence for the user.
    pub fn details(&self) -> (text: String)
        ensures
            text@ == self.details_text(),
    {
        match self {
            CTRLBackendError::Unexpected(_) => String::from_str(self.kind_name()),
            _ => {
                let mut text = join(self.kind_name(), ": ");
                text.append(self.content_ref().details().as_str());
                text
            },
        }
    }

    /// The line for the developer.
    pub fn debug(&self) -> (text: String)
        ensures
            text@ == self.debug_text(),
    {
        let mut text = self.details();
        text.append(" with ");
        text.append(quote(self.content_ref().debug().as_str()).as_str());
        text
    }

    /// The text under which the error is shown.
    pub fn to_string(&self) -> (text: String)
        ensures
            text@ == self.display_text(),
    {
        join("CTRL-B backend: ", self.details().as_str())
    }
}

} // verus!
