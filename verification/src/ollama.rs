//! The two exchanges with the backend: an answer in one piece, and an
//! answer that streams in fragments.

use vstd::prelude::*;
use vstd::string::*;
use vstd::utf8::encode_utf8;
use crate::error::CTRLBackendError;
use crate::options::Model;
use crate::prompt::TextTask;
use crate::request::{is_request, request, request_json, Request};
use crate::response::{bytes_details, fragment_text, is_parse_failure, text_details, Response};
use crate::transport::{is_read_failure, read_failure};

verus! {

/// What the caller is handed for each fragment of a streaming answer.
#[derive(Debug, Clone, Copy, PartialEq, Eq, Structural)]
pub enum Policy {
    /// The fragment as it came.
    PassThrough,
    /// Everything that has come so far, the fragment included.
    Accumulate,
}

/// What a [`StreamDecoder`] holds.
pub struct StreamDecoderView {
    pub policy: Policy,
    /// The fragments decoded so far, one after the other.
    pub full_response: Seq<char>,
}

/// The decoder of a streaming answer. It takes the chunks of the body in the
/// order in which they arrive and says, for each, what the caller is handed.
#[derive(Debug)]
pub struct StreamDecoder {
    policy: Policy,
    full_response: String,
}

impl View for StreamDecoder {
    type V = StreamDecoderView;

    closed spec fn view(&self) -> StreamDecoderView {
        StreamDecoderView { policy: self.policy, full_response: self.full_response@ }
    }
}

/// What the caller is handed for `fragment`, when `so_far` came before it.
pub open spec fn delivery(policy: Policy, so_far: Seq<char>, fragment: Seq<char>) -> Seq<char> {
    match policy {
        Policy::PassThrough => fragment,
        Policy::Accumulate => so_far + fragment,
    }
}

impl StreamDecoder {
    /// A decoder that has seen nothing yet.
    pub fn new(policy: Policy) -> (decoder: StreamDecoder)
        ensures
            decoder@ == (StreamDecoderView { policy, full_response: Seq::empty() }),
    {
        StreamDecoder { policy, full_response: String::new() }
    }

    /// The policy that the decoder was made with.
    pub fn policy(&self) -> (policy: Policy)
        ensures
            policy == self@.policy,
    {
        self.policy
    }

    /// The fragments decoded so far, one after the other.
    pub fn full_response(&self) -> (text: String)
        ensures
            text@ == self@.full_response,
    {
        self.full_response.clone()
    }

    /// Decodes the next chunk of the body, which must hold one whole
    /// answer. Returns what the caller is handed for it. A chunk that holds
    /// no answer is an error and leaves the decoder as it was.
    pub fn feed(&mut self, chunk: &[u8]) -> (handed: Result<String, CTRLBackendError>)
        ensures
            final(self)@.policy == old(self)@.policy,
            match fragment_text(chunk@) {
                Some(fragment) => {
                    &&& handed matches Ok(text)
                    &&& text@ == delivery(old(self)@.policy, old(self)@.full_response, fragment)
                    &&& final(self)@.full_response == old(self)@.full_response + fragment
                },
                None => {
                    &&& handed matches Err(err)
                    &&& is_parse_failure(err, bytes_details(), chunk@)
                    &&& final(self)@ == old(self)@
                },
            },
    {
        match Response::try_from(chunk) {
            Ok(answer) => {
                self.full_response.append(answer.response.as_str());
                match self.policy {
                    Policy::PassThrough => Ok(answer.response),
                    Policy::Accumulate => Ok(self.full_response.clone()),
                }
            },
            Err(err) => Err(err),
        }
    }
}

/// The fragment that `item` holds, where `item` is a chunk that holds one.
/// An item is what the transport yields while the body streams: a chunk, or
/// its account of a read that failed.
pub open spec fn item_fragment(item: Result<Vec<u8>, String>) -> Option<Seq<char>> {
    match item {
        Ok(chunk) => fragment_text(chunk@),
        Err(_) => None,
    }
}

/// Whether `err` reports why `item` holds no fragment.
pub open spec fn is_item_failure(err: CTRLBackendError, item: Result<Vec<u8>, String>) -> bool {
    match item {
        Ok(chunk) => is_parse_failure(err, bytes_details(), chunk@),
        Err(cause) => is_read_failure(err, cause@),
    }
}

/// The fragments of the first `count` items, one after the other.
pub open spec fn joined(items: Seq<Result<Vec<u8>, String>>, count: int) -> Seq<char>
    decreases count,
{
    if count <= 0 {
        Seq::empty()
    } else {
        joined(items, count - 1) + item_fragment(items[count - 1]).unwrap()
    }
}

/// What came of decoding a streaming answer.
#[derive(Debug)]
pub struct Decoded {
    /// What the caller was handed, fragment by fragment, in order.
    pub delivered: Vec<String>,
    /// Whether the stream ended well, and if not, why it broke off.
    pub outcome: Result<(), CTRLBackendError>,
}

/// Whether `decoded` is what decoding `items` under `policy` comes to.
///
/// The caller is handed something once for each item, in order, up to the
/// first item that holds no fragment. There decoding stops with that item's
/// error, and what was handed before stays handed. Where every item holds a
/// fragment, the stream ends well.
pub open spec fn is_decoding(
    decoded: Decoded,
    items: Seq<Result<Vec<u8>, String>>,
    policy: Policy,
) -> bool {
    &&& decoded.delivered.len() <= items.len()
    &&& forall|i: int|
        0 <= i < decoded.delivered.len() ==> {
            &&& item_fragment(#[trigger] items[i]) is Some
            &&& decoded.delivered@[i]@ == delivery(
                policy,
                joined(items, i),
                item_fragment(items[i]).unwrap(),
            )
        }
    &&& decoded.delivered.len() == items.len() ==> decoded.outcome is Ok
    &&& decoded.delivered.len() < items.len() ==> {
        &&& item_fragment(items[decoded.delivered.len() as int]) is None
        &&& decoded.outcome matches Err(err)
        &&& is_item_failure(err, items[decoded.delivered.len() as int])
    }
}

/// Decodes a streaming answer from the items that the transport yielded, in
/// the order in which they came. Each chunk must hold one whole answer.
pub fn decode(items: &Vec<Result<Vec<u8>, String>>, policy: Policy) -> (decoded: Decoded)
    ensures
        is_decoding(decoded, items@, policy),
{
    let mut decoder = StreamDecoder::new(policy);
    let mut delivered: Vec<String> = Vec::new();
    let mut i: usize = 0;
    while i < items.len()
        invariant
            i <= items.len(),
            delivered.len() == i,
            decoder@.policy == policy,
            decoder@.full_response == joined(items@, i as int),
            forall|k: int|
                0 <= k < i ==> {
                    &&& item_fragment(#[trigger] items@[k]) is Some
                    &&& delivered@[k]@ == delivery(
                        policy,
                        joined(items@, k),
                        item_fragment(items@[k]).unwrap(),
                    )
                },
        decreases items.len() - i,
    {
        match &items[i] {
            Ok(chunk) => {
                match decoder.feed(chunk.as_slice()) {
                    Ok(text) => {
                        delivered.push(text);
                    },
                    Err(err) => {
                        return Decoded { delivered, outcome: Err(err) };
                    },
                }
            },
            Err(cause) => {
                return Decoded { delivered, outcome: Err(read_failure(cause.clone())) };
            },
        }
        i = i + 1;
    }
    Decoded { delivered, outcome: Ok(()) }
}

/// Under the accumulating policy what the caller is handed grows fragment
/// by fragment: first the first fragment, then each time what was handed
/// before, followed by the fragment that came.
pub proof fn lemma_accumulating_grows(
    decoded: Decoded,
    items: Seq<Result<Vec<u8>, String>>,
    i: int,
)
    requires
        is_decoding(decoded, items, Policy::Accumulate),
        0 <= i < decoded.delivered.len(),
    ensures
        item_fragment(items[i]) is Some,
        i == 0 ==> decoded.delivered@[i]@ == item_fragment(items[i]).unwrap(),
        i > 0 ==> decoded.delivered@[i]@ == decoded.delivered@[i - 1]@ + item_fragment(
            items[i],
        ).unwrap(),
{
    assert(item_fragment(items[i]) is Some);
    if i > 0 {
        assert(item_fragment(items[i - 1]) is Some);
        assert(joined(items, i) == joined(items, i - 1) + item_fragment(items[i - 1]).unwrap());
    } else {
        assert(joined(items, 0) + item_fragment(items[0]).unwrap() =~= item_fragment(
            items[0],
        ).unwrap());
    }
}

/// Under the pass-through policy the caller is handed each fragment as it
/// came, and nothing of what came before.
pub proof fn lemma_pass_through_forwards(
    decoded: Decoded,
    items: Seq<Result<Vec<u8>, String>>,
    i: int,
)
    requires
        is_decoding(decoded, items, Policy::PassThrough),
        0 <= i < decoded.delivered.len(),
    ensures
        item_fragment(items[i]) is Some,
        decoded.delivered@[i]@ == item_fragment(items[i]).unwrap(),
{
    assert(item_fragment(items[i]) is Some);
}

/// An item that holds no fragment is never passed over: decoding fails,
/// with a generic error, and nothing is handed on for that item or for any
/// after it.
pub proof fn lemma_bad_item_stops_decoding(
    decoded: Decoded,
    items: Seq<Result<Vec<u8>, String>>,
    policy: Policy,
    i: int,
)
    requires
        is_decoding(decoded, items, policy),
        0 <= i < items.len(),
        item_fragment(items[i]) is None,
    ensures
        decoded.delivered.len() <= i,
        decoded.outcome matches Err(err) && err is LLM,
{
    if decoded.delivered.len() > i {
        assert(item_fragment(items[i]) is Some);
    }
}

/// Whether `answer` is what the body `body` of an answer in one piece
/// decodes to: the text under `response`, or a generic error that quotes
/// the body.
pub open spec fn is_decoded(answer: Result<String, CTRLBackendError>, body: Seq<char>) -> bool {
    match fragment_text(encode_utf8(body)) {
        Some(text) => answer matches Ok(decoded) && decoded@ == text,
        None => answer matches Err(err) && is_parse_failure(
            err,
            text_details(body),
            encode_utf8(body),
        ),
    }
}

/// Decodes the body of an answer in one piece: the generated text.
pub fn decode_once(body: String) -> (answer: Result<String, CTRLBackendError>)
    ensures
        is_decoded(answer, body@),
{
    match Response::try_from(body) {
        Ok(response) => Ok(response.response),
        Err(err) => Err(err),
    }
}

/// Decoding the same body twice comes out the same way both times: the same
/// text where the body holds an answer, and else a generic error with the
/// same sentence and the same cause.
pub proof fn lemma_decode_once_repeats(
    body: Seq<char>,
    first: Result<String, CTRLBackendError>,
    second: Result<String, CTRLBackendError>,
)
    requires
        is_decoded(first, body),
        is_decoded(second, body),
    ensures
        first is Ok <==> second is Ok,
        first is Ok <==> fragment_text(encode_utf8(body)) is Some,
        first matches Ok(text) ==> (second matches Ok(again) && text@ == again@),
        first matches Err(err) ==> (second matches Err(again) && err is LLM && again is LLM
            && err.content()@ == again.content()@),
{
}

/// A streaming exchange that is ready to begin.
#[derive(Debug)]
pub struct Streaming {
    /// The request to post.
    pub request: Request,
    /// The decoder for the chunks of the reply's body.
    pub decoder: StreamDecoder,
}

/// Whether `prepared` is the streaming exchange for `prompt`: the request
/// that asks `model`, under `url`, to answer `prompt` in a stream, with a
/// decoder of the given policy that has seen nothing.
pub open spec fn is_streaming(
    prepared: Streaming,
    prompt: Seq<char>,
    url: Seq<char>,
    model: Model,
    policy: Policy,
) -> bool {
    &&& is_request(prepared.request, url, request_json(prompt, model, true))
    &&& prepared.decoder@ == (StreamDecoderView { policy, full_response: Seq::empty() })
}

/// Prepares a streaming exchange whose fragments are handed on under
/// `policy`.
pub fn stream_with(prompt: String, url: String, model: Model, policy: Policy) -> (prepared:
    Streaming)
    ensures
        is_streaming(prepared, prompt@, url@, model, policy),
{
    Streaming { request: request(prompt, url, model, true), decoder: StreamDecoder::new(policy) }
}

/// Prepares the exchange that streams the answer to `prompt`. For each
/// fragment the caller is handed everything that has come so far.
pub fn stream(prompt: String, url: String, model: Model) -> (prepared: Streaming)
    ensures
        is_streaming(prepared, prompt@, url@, model, Policy::Accumulate),
{
    stream_with(prompt, url, model, Policy::Accumulate)
}

/// Prepares the request for the answer, in one piece, to the task `task`
/// on `text`. The body of the reply is for [`decode_once`].
pub fn generate(text: String, url: String, model: Model, task: TextTask) -> (prepared: Request)
    ensures
        is_request(prepared, url@, request_json(task.prompt_text(text@), model, false)),
{
    request(task.prompt(text), url, model, false)
}

} // verus!
