use lark_requests::errors::json_error;
use lark_requests::pipeline::{classify_transport_error, resolve_response};
use lark_requests::{BodyResponse, LarkError};

#[test]
fn error_displays_as_code_and_message() {
    let e = LarkError::new(100, "boom".to_string());
    assert_eq!(e.display_string(), "[100]: boom");
    let e = LarkError::new(0, "".to_string());
    assert_eq!(e.display_string(), "[0]: ");
}

#[test]
fn json_error_is_code_500_with_the_codec_words() {
    let e = json_error("bad token".to_string());
    assert_eq!(e.code(), 500);
    assert_eq!(e.message(), "json serde error: bad token");
}

#[test]
fn transport_errors_classify_by_their_class() {
    let e = classify_transport_error(true, false, false, None, "x".to_string());
    assert_eq!(e.code(), 500);
    assert_eq!(e.message(), "connect error: x");

    let e = classify_transport_error(false, true, false, None, "x".to_string());
    assert_eq!(e.code(), 500);
    assert_eq!(e.message(), "timeout error: x");

    let e = classify_transport_error(false, false, true, Some(404), "x".to_string());
    assert_eq!(e.code(), 404);
    assert_eq!(e.message(), "status error: x");

    let e = classify_transport_error(false, false, true, None, "x".to_string());
    assert_eq!(e.code(), 500);

    let e = classify_transport_error(false, false, false, None, "x".to_string());
    assert_eq!(e.code(), 500);
    assert_eq!(e.message(), "unknown error: x");
}

#[test]
fn resolving_a_failure_envelope_keeps_code_and_message() {
    let resp: BodyResponse<u64> = BodyResponse::new(100000, "invalid".to_string(), None);
    let e = resolve_response(resp).unwrap_err();
    assert_eq!(e.code(), 100000);
    assert_eq!(e.message(), "invalid");
}

#[test]
fn resolving_a_success_with_payload_yields_it() {
    let resp: BodyResponse<u64> = BodyResponse::new(0, "ok".to_string(), Some(7));
    assert_eq!(resolve_response(resp).unwrap(), 7);
}

#[test]
fn resolving_a_success_without_payload_is_code_502() {
    let resp: BodyResponse<u64> = BodyResponse::new(0, "ok".to_string(), None);
    let e = resolve_response(resp).unwrap_err();
    assert_eq!(e.code(), 502);
    assert_eq!(e.message(), "response data is null");
}

#[test]
fn error_envelope_from_response_is_verbatim() {
    let resp: BodyResponse<u64> = BodyResponse::new(42, "words".to_string(), None);
    let e = LarkError::from_response(&resp);
    assert_eq!(e.code(), 42);
    assert_eq!(e.message(), "words");
}
