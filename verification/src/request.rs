//! The request that asks the backend to generate: where it goes and what
//! its body says.

use vstd::prelude::*;
use vstd::string::*;
use crate::json::{json_string, to_json_string};
use crate::options::Model;
use crate::text::{join, lemma_trim_end, trim_end, trim_end_matches};

verus! {

/// The name under which the backend knows `model`.
pub open spec fn model_name(model: Model) -> Seq<char> {
    match model {
        Model::Llama2 => "llama2"@,
    }
}

/// The name under which the backend knows `model`.
pub fn model_to_str(model: Model) -> (name: String)
    ensures
        name@ == model_name(model),
{
    match model {
        Model::Llama2 => String::from_str("llama2"),
    }
}

/// The path of the backend's generation endpoint, from the base URL on.
pub open spec fn generate_path() -> Seq<char> {
    "/api/generate"@
}

/// The endpoint for the base URL `base_url`: the base URL without the
/// slashes that it ends in, then the path.
pub open spec fn endpoint_text(base_url: Seq<char>) -> Seq<char> {
    trim_end(base_url, '/') + generate_path()
}

/// The URL to post to, for a backend at `base_url`.
pub fn endpoint(base_url: &str) -> (url: String)
    ensures
        url@ == endpoint_text(base_url@),
{
    join(trim_end_matches(base_url, '/'), "/api/generate")
}

/// However many slashes a base URL ends in, the endpoint is one stem, which
/// is the base URL up to those slashes and does not end in a slash, followed
/// by the path once: a single slash parts the two.
pub proof fn lemma_endpoint_has_one_slash(base_url: Seq<char>)
    ensures
        ({
            let stem = trim_end(base_url, '/');
            &&& endpoint_text(base_url) == stem + generate_path()
            &&& stem.len() <= base_url.len()
            &&& stem == base_url.subrange(0, stem.len() as int)
            &&& forall|i: int| stem.len() <= i < base_url.len() ==> base_url[i] == '/'
            &&& stem.len() > 0 ==> stem.last() != '/'
            &&& generate_path().len() == 13
            &&& generate_path()[0] == '/'
            &&& generate_path()[1] != '/'
        }),
{
    lemma_trim_end(base_url, '/');
    reveal_strlit("/api/generate");
}

/// Base URLs that differ only in the slashes that they end in give the same
/// endpoint.
pub proof fn lemma_endpoint_ignores_trailing_slash(base_url: Seq<char>)
    ensures
        endpoint_text(base_url.push('/')) == endpoint_text(base_url),
{
    assert(base_url.push('/').drop_last() =~= base_url);
}

/// What a [`Payload`] holds.
pub struct PayloadView {
    pub model: Seq<char>,
    pub prompt: Seq<char>,
    pub keep_alive: Seq<char>,
    pub stream: bool,
}

/// The body of a generation request, before it is written as JSON. The
/// backend is always asked to keep the model loaded for fifteen minutes.
#[derive(Debug)]
pub struct Payload {
    model: String,
    prompt: String,
    keep_alive: String,
    stream: bool,
}

impl View for Payload {
    type V = PayloadView;

    closed spec fn view(&self) -> PayloadView {
        PayloadView {
            model: self.model@,
            prompt: self.prompt@,
            keep_alive: self.keep_alive@,
            stream: self.stream,
        }
    }
}

/// How long the backend is asked to keep the model loaded.
pub open spec fn keep_alive_text() -> Seq<char> {
    "15m"@
}

/// The JSON object of a payload, given the JSON strings of its three texts.
pub open spec fn framed_payload(
    model_json: Seq<char>,
    prompt_json: Seq<char>,
    keep_alive_json: Seq<char>,
    stream: bool,
) -> Seq<char> {
    "{\"model\":"@ + model_json + ",\"prompt\":"@ + prompt_json + ",\"keep_alive\":"@
        + keep_alive_json + ",\"stream\":"@ + (if stream {
        "true"@
    } else {
        "false"@
    }) + "}"@
}

/// The JSON object of a payload: the frame around the JSON strings of its
/// three texts.
pub open spec fn payload_json(payload: PayloadView) -> Seq<char> {
    framed_payload(
        json_string(payload.model),
        json_string(payload.prompt),
        json_string(payload.keep_alive),
        payload.stream,
    )
}

/// Writes a payload's JSON object around the JSON strings of its texts: the
/// members `model`, `prompt`, `keep_alive` and `stream`, in that order, with
/// no space between them.
pub fn frame_payload(
    model_json: &str,
    prompt_json: &str,
    keep_alive_json: &str,
    stream: bool,
) -> (body: String)
    ensures
        body@ == framed_payload(model_json@, prompt_json@, keep_alive_json@, stream),
{
    let mut body = join("{\"model\":", model_json);
    body.append(",\"prompt\":");
    body.append(prompt_json);
    body.append(",\"keep_alive\":");
    body.append(keep_alive_json);
    body.append(",\"stream\":");
    body.append(if stream { "true" } else { "false" });
    body.append("}");
    body
}

impl Payload {
    #[verifier::type_invariant]
    closed spec fn keeps_alive(&self) -> bool {
        self.keep_alive@ == keep_alive_text()
    }

    /// The payload that asks `model` to answer `prompt`, streaming or not.
    pub fn new(model: Model, prompt: String, stream: bool) -> (payload: Payload)
        ensures
            payload@ == (PayloadView {
                model: model_name(model),
                prompt: prompt@,
                keep_alive: keep_alive_text(),
                stream,
            }),
    {
        Payload {
            model: model_to_str(model),
            prompt,
            keep_alive: String::from_str("15m"),
            stream,
        }
    }

    /// How long the backend is asked to keep the model loaded: always
    /// fifteen minutes.
    pub fn keep_alive(&self) -> (text: String)
        ensures
            text@ == self@.keep_alive,
            text@ == keep_alive_text(),
    {
        proof {
            use_type_invariant(self);
        }
        self.keep_alive.clone()
    }

    /// The payload as the JSON object that the backend reads.
    pub fn to_json(&self) -> (body: String)
        ensures
            body@ == payload_json(self@),
    {
        let model_json = json_of(self.model.as_str());
        let prompt_json = json_of(self.prompt.as_str());
        let keep_alive_json = json_of(self.keep_alive.as_str());
        frame_payload(
            model_json.as_str(),
            prompt_json.as_str(),
            keep_alive_json.as_str(),
            self.stream,
        )
    }
}

/// `text` as a JSON string.
fn json_of(text: &str) -> (json: String)
    ensures
        json@ == json_string(text@),
{
    match to_json_string(text) {
        Ok(json) => json,
        Err(_) => unreached(),
    }
}

/// A request ready to be posted.
#[derive(Debug)]
pub struct Request {
    /// The URL to post to.
    pub endpoint: String,
    /// The body, a JSON object, to send with the content type of JSON.
    pub body: String,
}

/// The body of the request that asks `model` to answer `prompt`.
pub open spec fn request_json(prompt: Seq<char>, model: Model, stream: bool) -> Seq<char> {
    payload_json(
        PayloadView { model: model_name(model), prompt, keep_alive: keep_alive_text(), stream },
    )
}

/// Whether `request` goes to the endpoint under `url` with the body `json`.
pub open spec fn is_request(request: Request, url: Seq<char>, json: Seq<char>) -> bool {
    &&& request.endpoint@ == endpoint_text(url)
    &&& request.body@ == json
}

/// Prepares the request that asks `model`, at the backend under `url`, to
/// answer `prompt`, in one piece or streaming. Nothing is sent.
pub fn request(prompt: String, url: String, model: Model, stream: bool) -> (prepared: Request)
    ensures
        is_request(prepared, url@, request_json(prompt@, model, stream)),
{
    let payload = Payload::new(model, prompt, stream);
    Request { endpoint: endpoint(url.as_str()), body: payload.to_json() }
}

} // verus!
