use ctrlb_backend::status::{
    handle_error_status_code, judge_status, unexpected_status, Status, StatusVerdict,
};
use ctrlb_backend::CTRLBackendError;

fn status(code: u16) -> Status {
    Status::from_u16(code).unwrap()
}

#[test]
fn a_status_has_three_digits() {
    assert_eq!(Status::from_u16(0), None);
    assert_eq!(Status::from_u16(99), None);
    assert_eq!(Status::from_u16(1000), None);
    assert_eq!(Status::from_u16(u16::MAX), None);
    assert_eq!(status(100).as_u16(), 100);
    assert_eq!(status(404).as_u16(), 404);
    assert_eq!(status(999).as_u16(), 999);
    for code in 0..=u16::MAX {
        assert_eq!(
            Status::from_u16(code).is_some(),
            reqwest::StatusCode::from_u16(code).is_ok()
        );
    }
}

#[test]
fn success_is_two_hundred_to_under_three_hundred() {
    assert!(!status(199).is_success());
    assert!(status(200).is_success());
    assert!(status(204).is_success());
    assert!(status(299).is_success());
    assert!(!status(300).is_success());
    assert!(!status(404).is_success());
    for code in 100..=999 {
        assert_eq!(
            status(code).is_success(),
            reqwest::StatusCode::from_u16(code).unwrap().is_success()
        );
    }
}

#[test]
fn unexpected_statuses_are_printed_as_the_transport_prints_them() {
    for code in 100..=999 {
        let printed = reqwest::StatusCode::from_u16(code).unwrap().to_string();
        match unexpected_status(status(code), "body") {
            CTRLBackendError::Unexpected(content) => {
                assert_eq!(content.debug(), format!("{}: body", printed))
            }
            other => panic!("{:?}", other),
        }
    }
}

#[test]
fn unexpected_statuses_begin_with_the_code_and_end_with_the_body() {
    for code in 100..=999u16 {
        match handle_error_status_code(status(code), "the body") {
            CTRLBackendError::Unexpected(content) => {
                let cause = content.debug();
                assert!(cause.starts_with(&format!("{} ", code)), "{}", cause);
                assert!(cause.ends_with(": the body"), "{}", cause);
            }
            _ => assert!(code == 400 || code == 404),
        }
    }
}

#[test]
fn status_400_is_a_generic_error() {
    match handle_error_status_code(status(400), "whatever") {
        CTRLBackendError::LLM(content) => {
            assert_eq!(content.details(), "Bad request");
            assert_eq!(content.debug(), "null");
        }
        other => panic!("{:?}", other),
    }
}

#[test]
fn status_404_is_a_connection_error() {
    match handle_error_status_code(status(404), "whatever") {
        CTRLBackendError::LLMConnection(content) => {
            assert_eq!(content.details(), "is ollama running?");
            assert_eq!(content.debug(), "null");
        }
        other => panic!("{:?}", other),
    }
}

#[test]
fn status_500_is_unexpected_and_keeps_status_and_body() {
    match handle_error_status_code(status(500), "boom") {
        CTRLBackendError::Unexpected(content) => {
            assert_eq!(content.details(), "Unexpected ollama status code");
            assert_eq!(content.debug(), "500 Internal Server Error: boom");
        }
        other => panic!("{:?}", other),
    }
}

#[test]
fn other_statuses_are_unexpected() {
    for (code, line) in [
        (100u16, "100 Continue"),
        (301, "301 Moved Permanently"),
        (401, "401 Unauthorized"),
        (403, "403 Forbidden"),
        (418, "418 I'm a teapot"),
        (503, "503 Service Unavailable"),
        (599, "599 <unknown status code>"),
        (999, "999 <unknown status code>"),
    ] {
        match handle_error_status_code(status(code), "") {
            CTRLBackendError::Unexpected(content) => {
                assert_eq!(content.details(), "Unexpected ollama status code");
                assert_eq!(content.debug(), format!("{}: ", line));
            }
            other => panic!("{:?}", other),
        }
    }
}

#[test]
fn unexpected_status_keeps_the_body_as_it_is() {
    let body = "{\"error\":\"model 'llama2' not found\"}\n";
    match unexpected_status(status(502), body) {
        CTRLBackendError::Unexpected(content) => {
            assert_eq!(content.debug(), format!("502 Bad Gateway: {}", body));
        }
        other => panic!("{:?}", other),
    }
}

#[test]
fn verdicts() {
    assert!(matches!(judge_status(status(200)), StatusVerdict::Accept));
    assert!(matches!(judge_status(status(201)), StatusVerdict::Accept));
    assert!(matches!(judge_status(status(299)), StatusVerdict::Accept));
    assert!(matches!(
        judge_status(status(400)),
        StatusVerdict::Reject(CTRLBackendError::LLM(_))
    ));
    assert!(matches!(
        judge_status(status(404)),
        StatusVerdict::Reject(CTRLBackendError::LLMConnection(_))
    ));
    assert!(matches!(judge_status(status(500)), StatusVerdict::Unexpected));
    assert!(matches!(judge_status(status(302)), StatusVerdict::Unexpected));
    assert!(matches!(judge_status(status(199)), StatusVerdict::Unexpected));
    assert!(matches!(judge_status(status(300)), StatusVerdict::Unexpected));
}

#[test]
fn rejected_verdicts_carry_the_errors_of_their_statuses() {
    match judge_status(status(400)) {
        StatusVerdict::Reject(err) => {
            assert_eq!(err.details(), "LLM generic error: Bad request")
        }
        other => panic!("{:?}", other),
    }
    match judge_status(status(404)) {
        StatusVerdict::Reject(err) => {
            assert_eq!(err.details(), "LLM connection error: is ollama running?")
        }
        other => panic!("{:?}", other),
    }
}
