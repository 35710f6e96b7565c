use lark_requests::fields::{parse, FieldDef};
use lark_requests::grammar::{Arg, ArgLit, Attr, DescriptorError};

fn field(name: &str, args: Vec<Arg>) -> FieldDef {
    FieldDef {
        name: name.to_string(),
        attrs: vec![Attr {
            name: "request".to_string(),
            args,
        }],
    }
}

fn plain_field(name: &str) -> FieldDef {
    FieldDef {
        name: name.to_string(),
        attrs: vec![],
    }
}

fn ident(name: &str) -> Arg {
    Arg::Path(vec![name.to_string()])
}

fn named(name: &str, value: &str) -> Arg {
    Arg::Assign(name.to_string(), ArgLit::Str(value.to_string()))
}

#[test]
fn test_parse() {
    let defs = vec![
        field(
            "request_id",
            vec![ident("header"), named("rename", "Authorization"), named("with", "Bearer ")],
        ),
        field("request_type", vec![ident("header"), named("rename", "X-Request-Type")]),
        field("id", vec![named("path", "id")]),
        field("page", vec![ident("query"), named("with", "zt_")]),
        field("limit", vec![ident("query")]),
        field("mode", vec![ident("query"), named("serialize_with", "Mode::to_string")]),
    ];
    let (headers, paths, queries) = parse(&defs).expect("parse");

    assert_eq!(headers.len(), 2);
    assert_eq!(headers.0[0].field.as_str(), "request_id");
    assert_eq!(headers.0[0].rename, Some(String::from("Authorization")));

    assert_eq!(paths.len(), 1);
    assert_eq!(paths.0[0].field.as_str(), "id");
    assert_eq!(paths.0[0].rename, Some(String::from("id")));

    assert_eq!(queries.len(), 3);
    assert_eq!(queries.0[0].field.as_str(), "page");
    assert_eq!(queries.0[0].rename, None);
    assert_eq!(queries.0[1].field.as_str(), "limit");
    assert_eq!(queries.0[1].rename, None);

    assert_eq!(queries.0[2].field.as_str(), "mode");
    assert_eq!(queries.0[2].rename, None);
    assert_eq!(queries.0[2].serialize_with, Some(String::from("Mode::to_string")));
}

#[test]
fn unannotated_fields_are_skipped() {
    let defs = vec![plain_field("f1"), field("id", vec![named("path", "id")]), plain_field("f2")];
    let (headers, paths, queries) = parse(&defs).expect("parse");
    assert_eq!(headers.len(), 0);
    assert_eq!(paths.len(), 1);
    assert_eq!(queries.len(), 0);
}

#[test]
fn field_without_role_is_rejected() {
    let defs = vec![field("id", vec![named("rename", "x")])];
    let r = parse(&defs);
    match r {
        Err(DescriptorError::MissingRole(name)) => assert_eq!(name.as_str(), "id"),
        _ => panic!("expected a missing-role error"),
    }
}

#[test]
fn leftover_field_argument_is_rejected() {
    let defs = vec![field("id", vec![ident("query"), ident("shout")])];
    assert!(matches!(parse(&defs), Err(DescriptorError::Unexpected(_))));
}

#[test]
fn role_with_bad_value_is_rejected() {
    let defs = vec![field("id", vec![Arg::Assign("header".to_string(), ArgLit::Other)])];
    assert!(matches!(parse(&defs), Err(DescriptorError::Grammar(_))));
}

#[test]
fn duplicate_field_annotation_is_rejected() {
    let defs = vec![FieldDef {
        name: "id".to_string(),
        attrs: vec![
            Attr { name: "request".to_string(), args: vec![ident("query")] },
            Attr { name: "request".to_string(), args: vec![ident("path")] },
        ],
    }];
    assert!(matches!(parse(&defs), Err(DescriptorError::DuplicateAttribute)));
}

#[test]
fn first_matching_role_wins() {
    // both `header` and `query` present: header is tried first, query is
    // then an unconsumed leftover
    let defs = vec![field("id", vec![ident("header"), ident("query")])];
    assert!(matches!(parse(&defs), Err(DescriptorError::Unexpected(_))));
}

#[test]
fn explicit_rename_overrides_inline_rename() {
    let defs = vec![field("id", vec![named("path", "inline"), named("rename", "explicit")])];
    let (_, paths, _) = parse(&defs).expect("parse");
    assert_eq!(paths.0[0].rename, Some(String::from("explicit")));
}
