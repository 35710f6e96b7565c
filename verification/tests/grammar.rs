use lark_requests::grammar::{
    parse_bool_or_string_var, parse_bool_var, parse_string_var, Arg, ArgLit,
};

fn ident(name: &str) -> Arg {
    Arg::Path(vec![name.to_string()])
}

fn named_str(name: &str, value: &str) -> Arg {
    Arg::Assign(name.to_string(), ArgLit::Str(value.to_string()))
}

fn named_bool(name: &str, value: bool) -> Arg {
    Arg::Assign(name.to_string(), ArgLit::Bool(value))
}

#[test]
fn flag_matcher_accepts_both_forms() {
    let args = vec![ident("other"), ident("flatten")];
    assert_eq!(parse_bool_var(&args, "flatten").unwrap(), Some((true, 1)));

    let args = vec![named_bool("flatten", false)];
    assert_eq!(parse_bool_var(&args, "flatten").unwrap(), Some((false, 0)));

    let args = vec![ident("other")];
    assert_eq!(parse_bool_var(&args, "flatten").unwrap(), None);
}

#[test]
fn flag_matcher_rejects_wrong_value_kind() {
    let args = vec![named_str("flatten", "yes")];
    let r = parse_bool_var(&args, "flatten");
    assert!(r.is_err());
    let e = r.unwrap_err();
    assert!(matches!(e.arg, Arg::Assign(_, ArgLit::Str(_))));
}

#[test]
fn string_matcher_accepts_only_named_strings() {
    let args = vec![ident("rename"), named_str("rename", "X")];
    // the bare identifier is no string argument: the named form matches
    assert_eq!(parse_string_var(&args, "rename").unwrap(), Some(("X".to_string(), 1)));

    let args = vec![named_bool("rename", true)];
    assert!(parse_string_var(&args, "rename").is_err());
}

#[test]
fn flag_or_string_matcher_forms() {
    // bare identifier
    let args = vec![ident("header")];
    assert_eq!(
        parse_bool_or_string_var(&args, "header").unwrap(),
        Some((true, None, 0))
    );
    // name = bool
    let args = vec![named_bool("header", false)];
    assert_eq!(
        parse_bool_or_string_var(&args, "header").unwrap(),
        Some((false, None, 0))
    );
    // name = string: an inline rename
    let args = vec![named_str("header", "Authorization")];
    assert_eq!(
        parse_bool_or_string_var(&args, "header").unwrap(),
        Some((true, Some("Authorization".to_string()), 0))
    );
    // a bare string literal matches whatever the name
    let args = vec![Arg::Lit(ArgLit::Str("id".to_string()))];
    assert_eq!(
        parse_bool_or_string_var(&args, "path").unwrap(),
        Some((true, Some("id".to_string()), 0))
    );
    // a bare literal of another kind is an error
    let args = vec![Arg::Lit(ArgLit::Other)];
    assert!(parse_bool_or_string_var(&args, "path").is_err());
}

#[test]
fn matched_argument_is_consumed_exactly_once() {
    // one mention of the name: after the flag matcher consumed it, a second
    // pass — through either matcher — finds nothing
    let mut args = vec![ident("other"), ident("flatten"), named_str("rename", "X")];
    let (value, idx) = parse_bool_var(&args, "flatten").unwrap().unwrap();
    assert_eq!(value, true);
    args.remove(idx);
    assert_eq!(parse_bool_var(&args, "flatten").unwrap(), None);
    assert_eq!(parse_string_var(&args, "flatten").unwrap(), None);

    // and the same for a string match
    let mut args = vec![named_str("rename", "X"), ident("query")];
    let (value, idx) = parse_string_var(&args, "rename").unwrap().unwrap();
    assert_eq!(value, "X".to_string());
    args.remove(idx);
    assert_eq!(parse_string_var(&args, "rename").unwrap(), None);
    assert_eq!(parse_bool_var(&args, "rename").unwrap(), None);
}

#[test]
fn role_match_is_consumed_exactly_once() {
    // one mention of the role name and no bare literal: after the role
    // matcher consumed it, a second pass of any matcher finds nothing
    let mut args = vec![ident("header"), named_str("rename", "X")];
    let (flag, rename, idx) = parse_bool_or_string_var(&args, "header").unwrap().unwrap();
    assert_eq!((flag, rename), (true, None));
    args.remove(idx);
    assert_eq!(parse_bool_or_string_var(&args, "header").unwrap(), None);
    assert_eq!(parse_bool_var(&args, "header").unwrap(), None);
    assert_eq!(parse_string_var(&args, "header").unwrap(), None);

    // a bare string literal left in the pool matches the role matcher for
    // any name on the second pass, though not the named matchers
    let mut args = vec![ident("path"), Arg::Lit(ArgLit::Str("spare".to_string()))];
    let (_, _, idx) = parse_bool_or_string_var(&args, "path").unwrap().unwrap();
    args.remove(idx);
    assert_eq!(parse_bool_var(&args, "path").unwrap(), None);
    assert_eq!(parse_string_var(&args, "path").unwrap(), None);
    assert_eq!(
        parse_bool_or_string_var(&args, "path").unwrap(),
        Some((true, Some("spare".to_string()), 0))
    );
}

#[test]
fn first_match_wins_left_to_right() {
    let args = vec![named_bool("flatten", false), ident("flatten")];
    assert_eq!(parse_bool_var(&args, "flatten").unwrap(), Some((false, 0)));
}
