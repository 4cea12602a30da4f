//! Which model to ask, and where the backend listens.

use vstd::prelude::*;
use vstd::string::*;

verus! {

/// The models that the backend can be asked for.
#[derive(Debug, Clone, Copy, PartialEq, Eq, Structural)]
pub enum Model {
    Llama2,
}

/// What an [`LLMRunOptions`] holds.
pub struct LLMRunOptionsView {
    pub model: Model,
    pub url: Seq<char>,
}

/// The options of a run: the model, and the backend's base URL as the
/// caller wrote it.
#[derive(Debug, Clone)]
pub struct LLMRunOptions {
    model: Model,
    url: String,
}

impl View for LLMRunOptions {
    type V = LLMRunOptionsView;

    closed spec fn view(&self) -> LLMRunOptionsView {
        LLMRunOptionsView { model: self.model, url: self.url@ }
    }
}

impl LLMRunOptions {
    /// Options for `model` at `url`.
    pub fn new(model: Model, url: String) -> (options: LLMRunOptions)
        ensures
            options@ == (LLMRunOptionsView { model, url: url@ }),
    {
        LLMRunOptions { model, url }
    }

    /// The model to ask.
    pub fn model(&self) -> (model: Model)
        ensures
            model == self@.model,
    {
        self.model
    }

    /// Asks for `model` from now on; the URL stays.
    pub fn set_model(&mut self, model: Model)
        ensures
            final(self)@ == (LLMRunOptionsView { model, url: old(self)@.url }),
    {
        self.model = model;
    }

    /// The backend's base URL.
    pub fn url(&self) -> (url: String)
        ensures
            url@ == self@.url,
    {
        self.url.clone()
    }

    /// Points the options at `url` from now on; the model stays.
    pub fn set_url(&mut self, url: String)
        ensures
            final(self)@ == (LLMRunOptionsView { model: old(self)@.model, url: url@ }),
    {
        self.url = url;
    }
}

} // verus!
