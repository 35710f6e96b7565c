use lark_requests::container::Method;
use lark_requests::emit::build_params;
use lark_requests::fields::{FieldDef, FieldVariable, VariableMode};
use lark_requests::grammar::{Arg, ArgLit, Attr};
use lark_requests::request::BoundRequest;
use lark_requests::utils::lookup_param;
use lark_requests::Request;
use lark_requests::RequestSerialize;

fn request_attr(args: Vec<Arg>) -> Vec<Attr> {
    vec![Attr {
        name: "request".to_string(),
        args,
    }]
}

fn ident(name: &str) -> Arg {
    Arg::Path(vec![name.to_string()])
}

fn lit(text: &str) -> Arg {
    Arg::Lit(ArgLit::Str(text.to_string()))
}

fn named(name: &str, value: &str) -> Arg {
    Arg::Assign(name.to_string(), ArgLit::Str(value.to_string()))
}

fn field(name: &str, args: Vec<Arg>) -> FieldDef {
    FieldDef {
        name: name.to_string(),
        attrs: request_attr(args),
    }
}

#[test]
fn bases_request() {
    let attrs = request_attr(vec![ident("GET"), lit("https://exmaple.com"), ident("AccessToken")]);
    let compiled = lark_requests::request::derive(&attrs, &vec![]).expect("derive");
    let req = BoundRequest::bind(compiled, vec![], vec![]);

    assert_eq!(req.method(), Method::Get);
    let url = req.address();
    assert_eq!("https://exmaple.com", url);

    let body = req.body();
    assert!(body.is_ok());
}

#[test]
fn request_with_body() {
    let attrs = request_attr(vec![
        ident("POST"),
        lit("https://exmaple.com/user/:id"),
        ident("AccessToken"),
    ]);
    let defs = vec![
        field(
            "request_id",
            vec![ident("header"), named("rename", "Authorization"), named("with", "Bearer ")],
        ),
        field("user", vec![ident("header"), named("rename", "User")]),
        field("id", vec![named("path", "id")]),
        field("page", vec![ident("query")]),
        field("limit", vec![ident("query")]),
    ];
    let compiled = lark_requests::request::derive(&attrs, &defs).expect("derive");

    let values = vec![
        ("request_id".to_string(), "tests".to_string().serialize()),
        ("user".to_string(), "ihaiker".to_string().serialize()),
        ("id".to_string(), 1u64.serialize()),
        ("page".to_string(), 1u32.serialize()),
        ("limit".to_string(), 10u32.serialize()),
    ];
    let encoded = r#"{"f1":"v1","f2":"v2"}"#.as_bytes().to_vec();
    let req = BoundRequest::bind(compiled, values, encoded);

    assert_eq!(req.method(), Method::Post);

    let url = req.address();
    assert_eq!("https://exmaple.com/user/:id", url);

    let paths = req.path_params();
    assert!(paths.is_some());
    let paths = paths.unwrap();
    assert_eq!(paths.len(), 1);
    assert_eq!(lookup_param(&paths, "id"), Some(&"1".to_string()));

    let queries = req.query_params();
    assert!(queries.is_some());
    let queries = queries.unwrap();
    assert_eq!(queries.len(), 2);
    assert_eq!(queries.get(0), Some(&("page".to_string(), "1".to_string())));
    assert_eq!(queries.get(1), Some(&("limit".to_string(), "10".to_string())));

    let headers = req.headers();
    assert!(headers.is_some());
    let headers = headers.unwrap();
    assert_eq!(headers.len(), 2);
    assert_eq!(headers.get(0), Some(&("Authorization".to_string(), "Bearer tests".to_string())));
    assert_eq!(headers.get(1), Some(&("User".to_string(), "ihaiker".to_string())));

    let body = req.body().expect("result").expect("body");
    assert_eq!(String::from_utf8(body), Ok(r#"{"f1":"v1","f2":"v2"}"#.to_string()));
}

fn query_field(name: &str, with: Option<&str>) -> FieldVariable {
    FieldVariable {
        field: name.to_string(),
        with: with.map(|w| w.to_string()),
        mode: Some(VariableMode::Query),
        rename: None,
        serialize_with: None,
    }
}

#[test]
fn absent_value_is_omitted_and_prefix_is_applied() {
    let fields = vec![query_field("token", Some("Bearer ")), query_field("page", None)];

    // the token serializes to absent: it never reaches the emitted list
    let values = vec![
        ("token".to_string(), None::<String>.serialize()),
        ("page".to_string(), 2u32.serialize()),
    ];
    let pairs = build_params(&fields, &values).expect("params");
    assert_eq!(pairs, vec![("page".to_string(), "2".to_string())]);

    // present: it appears exactly once, as prefix + value
    let values = vec![
        ("token".to_string(), Some("abc".to_string()).serialize()),
        ("page".to_string(), 2u32.serialize()),
    ];
    let pairs = build_params(&fields, &values).expect("params");
    assert_eq!(
        pairs,
        vec![
            ("token".to_string(), "Bearer abc".to_string()),
            ("page".to_string(), "2".to_string()),
        ]
    );
}

#[test]
fn empty_role_list_gives_no_params() {
    let fields: Vec<FieldVariable> = vec![];
    let values: Vec<(String, Option<String>)> = vec![];
    assert!(build_params(&fields, &values).is_none());
}
