use lark_requests::container::{parse, Method};
use lark_requests::grammar::{Arg, ArgLit, Attr, DescriptorError};

fn request_attr(args: Vec<Arg>) -> Attr {
    Attr { name: "request".to_string(), args }
}

fn ident(name: &str) -> Arg {
    Arg::Path(vec![name.to_string()])
}

fn lit(text: &str) -> Arg {
    Arg::Lit(ArgLit::Str(text.to_string()))
}

#[test]
fn test_duplicate() {
    let attrs = vec![
        request_attr(vec![ident("GET"), lit("https://exmaple.com/test")]),
        request_attr(vec![ident("GET"), lit("https://exmaple.com/test")]),
    ];
    let r = parse(&attrs);
    assert!(matches!(r, Err(DescriptorError::DuplicateAttribute)));
}

#[test]
fn test_container_parse() {
    let attrs = vec![request_attr(vec![
        ident("GET"),
        lit("https://exmaple.com/test"),
        Arg::Path(vec!["lark_requests".to_string(), "AssertToken".to_string()]),
    ])];
    let var = parse(&attrs).expect("parse");
    assert_eq!(var.method, Some(Method::Get));
    assert_eq!(var.address, Some(String::from("https://exmaple.com/test")));
    assert_eq!(
        var.response,
        Some(vec!["lark_requests".to_string(), "AssertToken".to_string()])
    );
    assert_eq!(var.flatten, false);

    let attrs = vec![request_attr(vec![
        lit("https://exmaple.com/test"),
        ident("AssertToken"),
    ])];
    let var = parse(&attrs).expect("parse");
    assert_eq!(var.method, Some(Method::Post));
    assert_eq!(var.address, Some(String::from("https://exmaple.com/test")));
    assert_eq!(var.response, Some(vec!["AssertToken".to_string()]));
    assert_eq!(var.flatten, false);

    let attrs = vec![request_attr(vec![
        lit("https://exmaple.com/test"),
        ident("AssertToken"),
        ident("flatten"),
    ])];
    let var = parse(&attrs).expect("parse");
    assert_eq!(var.method, Some(Method::Post));
    assert_eq!(var.address, Some(String::from("https://exmaple.com/test")));
    assert_eq!(var.response, Some(vec!["AssertToken".to_string()]));
    assert_eq!(var.flatten, true);

    let attrs = vec![request_attr(vec![
        lit("https://exmaple.com/test"),
        ident("AssertToken"),
        Arg::Assign("flatten".to_string(), ArgLit::Bool(true)),
    ])];
    let var = parse(&attrs).expect("parse");
    assert_eq!(var.method, Some(Method::Post));
    assert_eq!(var.address, Some(String::from("https://exmaple.com/test")));
    assert_eq!(var.response, Some(vec!["AssertToken".to_string()]));
    assert_eq!(var.flatten, true);
}

#[test]
fn test_failed_parse() {
    let attrs = vec![request_attr(vec![
        lit("https://exmaple.com/test"),
        ident("AssertToken"),
        Arg::Assign("flatten".to_string(), ArgLit::Bool(true)),
        ident("unknown"),
    ])];
    let r = parse(&attrs);
    assert!(matches!(r, Err(DescriptorError::Unexpected(_))));
}

#[test]
fn missing_annotation_is_rejected() {
    let attrs: Vec<Attr> = vec![Attr {
        name: "other".to_string(),
        args: vec![],
    }];
    assert!(matches!(parse(&attrs), Err(DescriptorError::MissingAttribute)));
}

#[test]
fn missing_mandatory_arguments_are_rejected() {
    // nothing at all
    let attrs = vec![request_attr(vec![])];
    assert!(matches!(parse(&attrs), Err(DescriptorError::MissingArgument)));
    // a verb without an address
    let attrs = vec![request_attr(vec![ident("GET")])];
    assert!(matches!(parse(&attrs), Err(DescriptorError::MissingArgument)));
    // an address without a response type
    let attrs = vec![request_attr(vec![lit("https://x")])];
    assert!(matches!(parse(&attrs), Err(DescriptorError::MissingArgument)));
}

#[test]
fn bad_first_argument_is_rejected() {
    // neither one of the eight verbs nor a string literal
    let attrs = vec![request_attr(vec![ident("FETCH"), lit("https://x"), ident("T")])];
    assert!(matches!(parse(&attrs), Err(DescriptorError::BadArgument(_))));
}

#[test]
fn flag_with_string_value_is_rejected() {
    let attrs = vec![request_attr(vec![
        lit("https://x"),
        ident("T"),
        Arg::Assign("flatten".to_string(), ArgLit::Str("yes".to_string())),
    ])];
    assert!(matches!(parse(&attrs), Err(DescriptorError::Grammar(_))));
}

#[test]
fn default_method_is_post_and_body_flag_resolves() {
    // POST by default carries a body; GET does not; `body` overrides both
    let attrs = vec![request_attr(vec![lit("https://x"), ident("T")])];
    let var = parse(&attrs).expect("parse");
    assert_eq!(var.method, Some(Method::Post));
    assert!(var.body());

    let attrs = vec![request_attr(vec![ident("GET"), lit("https://x"), ident("T")])];
    let var = parse(&attrs).expect("parse");
    assert!(!var.body());

    let attrs = vec![request_attr(vec![
        ident("GET"),
        lit("https://x"),
        ident("T"),
        ident("body"),
    ])];
    let var = parse(&attrs).expect("parse");
    assert!(var.body());

    let attrs = vec![request_attr(vec![
        lit("https://x"),
        ident("T"),
        Arg::Assign("body".to_string(), ArgLit::Bool(false)),
    ])];
    let var = parse(&attrs).expect("parse");
    assert!(!var.body());
}
