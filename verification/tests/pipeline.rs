use lark_requests::pipeline::build_url;

fn params(pairs: &[(&str, &str)]) -> Option<Vec<(String, String)>> {
    Some(
        pairs
            .iter()
            .map(|(k, v)| (k.to_string(), v.to_string()))
            .collect(),
    )
}

#[test]
fn url_is_substituted_and_query_appended_in_order() {
    let url = build_url(
        "https://example.com/user/:id",
        &params(&[("id", "5")]),
        &params(&[("page", "1"), ("limit", "10")]),
    )
    .expect("url");
    assert_eq!(url.as_str(), "https://example.com/user/5?page=1&limit=10");
}

#[test]
fn duplicate_query_keys_are_kept() {
    let url = build_url("https://example.com/x", &None, &params(&[("a", "1"), ("a", "2")]))
        .expect("url");
    assert_eq!(url.as_str(), "https://example.com/x?a=1&a=2");
}

#[test]
fn unresolved_placeholder_passes_through() {
    let url = build_url("https://example.com/:id/:id2", &params(&[("id", "1")]), &None)
        .expect("url");
    assert_eq!(url.as_str(), "https://example.com/1/:id2");
}

#[test]
fn malformed_address_is_code_502() {
    let e = build_url("not a url", &None, &None).unwrap_err();
    assert_eq!(e.code(), 502);
}
