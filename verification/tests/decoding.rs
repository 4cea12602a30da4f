use ctrlb_backend::ollama::{decode, decode_once, Policy, StreamDecoder};
use ctrlb_backend::response::{response_from_lookup, Response};
use ctrlb_backend::CTRLBackendError;

const FROM_BYTES: &str = "Failed to parse ollama response text to expected json from bytes";

fn chunk(text: &str) -> Result<Vec<u8>, String> {
    Ok(format!("{{\"response\":{}}}", serde_json::to_string(text).unwrap()).into_bytes())
}

fn llm_details(err: &CTRLBackendError) -> String {
    match err {
        CTRLBackendError::LLM(content) => content.details(),
        other => panic!("{:?}", other),
    }
}

fn llm_debug(err: &CTRLBackendError) -> String {
    match err {
        CTRLBackendError::LLM(content) => content.debug(),
        other => panic!("{:?}", other),
    }
}

#[test]
fn bytes_with_the_member_are_an_answer() {
    let answer = Response::try_from(&b"{\"response\":\"Hello\"}"[..]).unwrap();
    assert_eq!(answer.response, "Hello");
}

#[test]
fn other_members_are_passed_over() {
    let body = b"{\"model\":\"llama2\",\"created_at\":\"2024-01-01T00:00:00Z\",\"response\":\" world\",\"done\":false,\"context\":[1,2,3]}";
    let answer = Response::try_from(&body[..]).unwrap();
    assert_eq!(answer.response, " world");
}

#[test]
fn escapes_in_the_member_are_resolved() {
    let body = b"{\"response\":\"a\\n\\\"b\\\" \\u00e9\"}";
    let answer = Response::try_from(&body[..]).unwrap();
    assert_eq!(answer.response, "a\n\"b\" é");
}

#[test]
fn space_around_the_object_is_allowed() {
    let answer = Response::try_from(&b" \n{ \"response\" : \"x\" }\n"[..]).unwrap();
    assert_eq!(answer.response, "x");
}

#[test]
fn of_two_members_with_the_key_the_later_counts() {
    let body = b"{\"response\":\"a\",\"response\":\"b\"}";
    let answer = Response::try_from(&body[..]).unwrap();
    assert_eq!(answer.response, "b");
    let mixed = b"{\"response\":\"a\",\"response\":7}";
    let err = Response::try_from(&mixed[..]).unwrap_err();
    assert_eq!(llm_debug(&err), "missing string member `response`");
}

#[test]
fn a_missing_member_is_a_generic_error() {
    let err = Response::try_from(&b"{\"resp\": \"x\"}"[..]).unwrap_err();
    assert_eq!(llm_details(&err), FROM_BYTES);
    assert_eq!(llm_debug(&err), "missing string member `response`");
}

#[test]
fn a_member_that_is_no_string_is_a_generic_error() {
    for body in [
        &b"{\"response\": 5}"[..],
        &b"{\"response\": null}"[..],
        &b"{\"response\": [\"x\"]}"[..],
        &b"{\"response\": {\"response\": \"x\"}}"[..],
    ] {
        let err = Response::try_from(body).unwrap_err();
        assert_eq!(llm_details(&err), FROM_BYTES);
        assert_eq!(llm_debug(&err), "missing string member `response`");
    }
}

#[test]
fn truncated_json_is_a_generic_error() {
    let err = Response::try_from(&b"{\"response\": \"x"[..]).unwrap_err();
    assert_eq!(llm_details(&err), FROM_BYTES);
    let cause = llm_debug(&err);
    assert!(cause.starts_with("Error("), "{}", cause);
    assert!(cause.contains("line: 1"), "{}", cause);
}

#[test]
fn the_cause_is_what_the_parser_says() {
    let err = Response::try_from(&b"{\"response\": \"x"[..]).unwrap_err();
    assert_eq!(
        llm_debug(&err),
        "Error(\"EOF while parsing a string\", line: 1, column: 15)"
    );
    for body in [
        &b""[..],
        &b"{"[..],
        &b"[\"x\"]"[..],
        &b"42"[..],
        &b"not json"[..],
        &b"{\"response\":\"a\"} x"[..],
        &b"{\"response\":\"a\",}"[..],
        &b"{\"response\":\"\xff\"}"[..],
        &b"{\n\"response\": tru\n}"[..],
    ] {
        let refusal = serde_json::from_slice::<serde_json::Map<String, serde_json::Value>>(body)
            .unwrap_err();
        let err = Response::try_from(body).unwrap_err();
        assert_eq!(llm_details(&err), FROM_BYTES);
        assert_eq!(llm_debug(&err), format!("{:?}", refusal));
    }
}

#[test]
fn the_same_bad_bytes_give_the_same_error() {
    let body = &b"{\"response\": [1, 2"[..];
    let first = Response::try_from(body).unwrap_err();
    let second = Response::try_from(body).unwrap_err();
    assert_eq!(first.debug(), second.debug());
    assert_eq!(first.to_string(), second.to_string());
}

#[test]
fn what_is_no_object_is_a_generic_error() {
    for body in [
        &b""[..],
        &b"   "[..],
        &b"[\"x\"]"[..],
        &b"\"response\""[..],
        &b"42"[..],
        &b"true"[..],
        &b"not json"[..],
        &b"\xff\xfe"[..],
    ] {
        let err = Response::try_from(body).unwrap_err();
        assert_eq!(llm_details(&err), FROM_BYTES);
        assert_ne!(llm_debug(&err), "null");
    }
}

#[test]
fn two_objects_in_one_chunk_are_a_generic_error() {
    let err =
        Response::try_from(&b"{\"response\":\"a\"}\n{\"response\":\"b\"}"[..]).unwrap_err();
    assert_eq!(llm_details(&err), FROM_BYTES);
    assert!(llm_debug(&err).starts_with("Error("));
}

#[test]
fn text_with_the_member_is_an_answer() {
    let answer = Response::try_from("{\"response\":\"A short summary.\"}".to_string()).unwrap();
    assert_eq!(answer.response, "A short summary.");
}

#[test]
fn text_that_is_no_answer_is_quoted_in_the_error() {
    let err = Response::try_from("{\"resp\": \"x\"}".to_string()).unwrap_err();
    assert_eq!(
        llm_details(&err),
        "Failed to parse ollama response text to expected json: text was {\"resp\": \"x\"}"
    );
    assert_eq!(llm_debug(&err), "missing string member `response`");
    let broken = Response::try_from("{\"response\"".to_string()).unwrap_err();
    assert_eq!(
        llm_details(&broken),
        "Failed to parse ollama response text to expected json: text was {\"response\""
    );
    assert!(llm_debug(&broken).starts_with("Error("));
}

#[test]
fn lookup_found_missing_or_failed() {
    let found = response_from_lookup(Ok(Some("text".to_string())), "Sentence").unwrap();
    assert_eq!(found.response, "text");
    let missing = response_from_lookup(Ok(None), "Sentence").unwrap_err();
    assert_eq!(llm_details(&missing), "Sentence");
    assert_eq!(llm_debug(&missing), "missing string member `response`");
    let failed = response_from_lookup(Err("EOF".to_string()), "Sentence").unwrap_err();
    assert_eq!(llm_details(&failed), "Sentence");
    assert_eq!(llm_debug(&failed), "EOF");
}

#[test]
fn decode_once_gives_the_text() {
    let answer = decode_once("{\"response\":\"A short summary.\"}".to_string()).unwrap();
    assert_eq!(answer, "A short summary.");
}

#[test]
fn decode_once_twice_gives_the_same() {
    let body = "{\"response\":\"Once more, with feeling.\",\"done\":true}";
    let first = decode_once(body.to_string()).unwrap();
    let second = decode_once(body.to_string()).unwrap();
    assert_eq!(first, "Once more, with feeling.");
    assert_eq!(first, second);
    let bad = "{\"response\":";
    let first_err = decode_once(bad.to_string()).unwrap_err();
    let second_err = decode_once(bad.to_string()).unwrap_err();
    assert_eq!(first_err.debug(), second_err.debug());
}

#[test]
fn decode_once_of_what_is_no_answer_fails() {
    let err = decode_once("<html>502</html>".to_string()).unwrap_err();
    assert_eq!(
        llm_details(&err),
        "Failed to parse ollama response text to expected json: text was <html>502</html>"
    );
    let empty = decode_once(String::new()).unwrap_err();
    assert_eq!(
        llm_details(&empty),
        "Failed to parse ollama response text to expected json: text was "
    );
}

#[test]
fn accumulating_hands_on_all_that_came() {
    let items = vec![chunk("Hello"), chunk(" world")];
    let decoded = decode(&items, Policy::Accumulate);
    assert_eq!(decoded.delivered, vec!["Hello".to_string(), "Hello world".to_string()]);
    assert!(decoded.outcome.is_ok());
}

#[test]
fn pass_through_hands_on_each_fragment() {
    let items = vec![chunk("Hello"), chunk(" world")];
    let decoded = decode(&items, Policy::PassThrough);
    assert_eq!(decoded.delivered, vec!["Hello".to_string(), " world".to_string()]);
    assert!(decoded.outcome.is_ok());
}

#[test]
fn accumulating_grows_by_prefixes() {
    let items = vec![chunk("a"), chunk(""), chunk("bc"), chunk("\n"), chunk("d")];
    let decoded = decode(&items, Policy::Accumulate);
    assert_eq!(decoded.delivered, vec!["a", "a", "abc", "abc\n", "abc\nd"]);
    for pair in decoded.delivered.windows(2) {
        assert!(pair[1].starts_with(&pair[0]));
    }
    assert!(decoded.outcome.is_ok());
}

#[test]
fn an_empty_stream_ends_well_with_nothing_handed_on() {
    let items: Vec<Result<Vec<u8>, String>> = Vec::new();
    for policy in [Policy::Accumulate, Policy::PassThrough] {
        let decoded = decode(&items, policy);
        assert!(decoded.delivered.is_empty());
        assert!(decoded.outcome.is_ok());
    }
}

#[test]
fn a_malformed_chunk_stops_decoding() {
    let items = vec![
        chunk("Hello"),
        Ok(b"{\"resp\": \"x\"}".to_vec()),
        chunk(" world"),
    ];
    for (policy, handed) in [(Policy::Accumulate, "Hello"), (Policy::PassThrough, "Hello")] {
        let decoded = decode(&items, policy);
        assert_eq!(decoded.delivered, vec![handed.to_string()]);
        let err = decoded.outcome.unwrap_err();
        assert_eq!(llm_details(&err), FROM_BYTES);
    }
}

#[test]
fn a_truncated_first_chunk_hands_on_nothing() {
    let items = vec![Ok(b"{\"response\": \"Hel".to_vec()), Ok(b"lo\"}".to_vec())];
    let decoded = decode(&items, Policy::Accumulate);
    assert!(decoded.delivered.is_empty());
    let err = decoded.outcome.unwrap_err();
    assert_eq!(llm_details(&err), FROM_BYTES);
    assert!(llm_debug(&err).starts_with("Error("));
}

#[test]
fn a_failed_read_stops_decoding_and_keeps_what_was_handed_on() {
    let items = vec![
        chunk("Hello"),
        chunk(" world"),
        Err("connection reset".to_string()),
        chunk("!"),
    ];
    let decoded = decode(&items, Policy::Accumulate);
    assert_eq!(decoded.delivered, vec!["Hello", "Hello world"]);
    let err = decoded.outcome.unwrap_err();
    assert_eq!(llm_details(&err), "Failed to get bytes from ollama response");
    assert_eq!(llm_debug(&err), "connection reset");
}

#[test]
fn decoder_accumulates_chunk_by_chunk() {
    let mut decoder = StreamDecoder::new(Policy::Accumulate);
    assert_eq!(decoder.policy(), Policy::Accumulate);
    assert_eq!(decoder.full_response(), "");
    assert_eq!(decoder.feed(b"{\"response\":\"Hello\"}").unwrap(), "Hello");
    assert_eq!(decoder.feed(b"{\"response\":\" world\"}").unwrap(), "Hello world");
    assert_eq!(decoder.full_response(), "Hello world");
}

#[test]
fn decoder_passes_through_chunk_by_chunk() {
    let mut decoder = StreamDecoder::new(Policy::PassThrough);
    assert_eq!(decoder.policy(), Policy::PassThrough);
    assert_eq!(decoder.feed(b"{\"response\":\"Hello\"}").unwrap(), "Hello");
    assert_eq!(decoder.feed(b"{\"response\":\" world\"}").unwrap(), " world");
    assert_eq!(decoder.full_response(), "Hello world");
}

#[test]
fn decoder_is_left_as_it_was_by_a_bad_chunk() {
    let mut decoder = StreamDecoder::new(Policy::Accumulate);
    assert_eq!(decoder.feed(b"{\"response\":\"Hello\"}").unwrap(), "Hello");
    let err = decoder.feed(b"{\"response\":").unwrap_err();
    assert_eq!(llm_details(&err), FROM_BYTES);
    assert_eq!(decoder.full_response(), "Hello");
    assert_eq!(decoder.feed(b"{\"response\":\"!\"}").unwrap(), "Hello!");
}
