use lark_requests::envelope::{
    decode_flatten, decode_nested, resolve_nested_fields, EnvelopeField,
};

#[test]
fn missing_code_is_a_codec_error() {
    let e = decode_nested(br#"{"msg":"ok"}"#).unwrap_err();
    assert_eq!(e.code(), 500);
    assert_eq!(e.message(), "missing field `code`");
}

#[test]
fn missing_msg_is_a_codec_error() {
    let e = decode_nested(br#"{"code":0}"#).unwrap_err();
    assert_eq!(e.code(), 500);
    assert_eq!(e.message(), "missing field `msg`");
}

#[test]
fn unknown_field_is_a_codec_error() {
    let e = decode_nested(br#"{"code":0,"msg":"ok","extra":1}"#).unwrap_err();
    assert_eq!(e.code(), 500);
    assert_eq!(e.message(), "unknown field `extra`");
}

#[test]
fn wrong_code_kind_is_a_codec_error() {
    let e = decode_nested(br#"{"code":"zero","msg":"ok"}"#).unwrap_err();
    assert_eq!(e.code(), 500);
    assert_eq!(e.message(), "invalid value for field `code`");
    // a negative or fractional number is no u64 either
    let e = decode_nested(br#"{"code":-1,"msg":"ok"}"#).unwrap_err();
    assert_eq!(e.message(), "invalid value for field `code`");
}

#[test]
fn wrong_msg_kind_is_a_codec_error() {
    let e = decode_nested(br#"{"code":0,"msg":3}"#).unwrap_err();
    assert_eq!(e.code(), 500);
    assert_eq!(e.message(), "invalid value for field `msg`");
}

#[test]
fn non_object_text_is_a_codec_error() {
    let e = decode_nested(br#"[1,2]"#).unwrap_err();
    assert_eq!(e.code(), 500);
    assert!(e.message().starts_with("json serde error: "));
    let e = decode_nested(b"not json at all").unwrap_err();
    assert_eq!(e.code(), 500);
}

#[test]
fn success_without_data_field_decodes() {
    let raw = decode_nested(br#"{"code":0,"msg":"ok"}"#).expect("decode");
    assert_eq!(raw.code, 0);
    assert_eq!(raw.message, "ok");
    assert!(raw.data.is_none());
}

#[test]
fn data_before_code_is_discarded() {
    // the resolver reads fields in order: a payload arriving before the
    // code was read is structurally consumed and dropped
    let data = serde_json::from_str::<serde_json::Value>(r#"{"x":1}"#).unwrap();
    let fields = vec![
        EnvelopeField::Data(data),
        EnvelopeField::Code(0),
        EnvelopeField::Msg("ok".to_string()),
    ];
    let raw = resolve_nested_fields(fields).expect("resolve");
    assert_eq!(raw.code, 0);
    assert!(raw.data.is_none());
}

#[test]
fn data_after_zero_code_is_kept() {
    let data = serde_json::from_str::<serde_json::Value>(r#"{"x":1}"#).unwrap();
    let fields = vec![
        EnvelopeField::Code(0),
        EnvelopeField::Msg("ok".to_string()),
        EnvelopeField::Data(data),
    ];
    let raw = resolve_nested_fields(fields).expect("resolve");
    assert!(raw.data.is_some());
}

#[test]
fn flatten_keeps_every_other_field() {
    let raw = decode_flatten(br#"{"code":0,"msg":"ok","b":2,"a":1}"#).expect("decode");
    assert_eq!(raw.code, 0);
    assert_eq!(raw.message, "ok");
    let names: Vec<&str> = raw.rest.iter().map(|(k, _)| k.as_str()).collect();
    // the two-pass decode reads the parsed object's entries in its order
    // (sorted by key), code and msg taken out
    assert_eq!(names, vec!["a", "b"]);
}

#[test]
fn flatten_requires_code_and_msg() {
    let e = decode_flatten(br#"{"msg":"ok","a":1}"#).unwrap_err();
    assert_eq!(e.code(), 500);
    assert_eq!(e.message(), "missing field `code`");
    let e = decode_flatten(br#"{"code":0,"a":1}"#).unwrap_err();
    assert_eq!(e.message(), "missing field `msg`");
}
