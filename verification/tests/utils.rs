use lark_requests::utils::{lookup_param, replace_path_params};

fn params(pairs: &[(&str, &str)]) -> Vec<(String, String)> {
    pairs
        .iter()
        .map(|(k, v)| (k.to_string(), v.to_string()))
        .collect()
}

#[test]
fn test_replace_path_params() {
    {
        let path = "/v1/tenants/:tenant_id";
        let params = params(&[("tenant_id", "123")]);

        let replaced_path = replace_path_params(path, &params);
        assert_eq!(replaced_path, "/v1/tenants/123");
    }

    {
        let path = "/v1/:id/:id2";
        let params = params(&[("id", "1"), ("id2", "2")]);

        let replaced_path = replace_path_params(path, &params);
        assert_eq!(replaced_path, "/v1/1/2");
    }
}

#[test]
fn unsupplied_placeholder_stays_verbatim() {
    let replaced = replace_path_params("/v1/:id/:id2", &params(&[("id", "1")]));
    assert_eq!(replaced, "/v1/1/:id2");
}

#[test]
fn substitution_is_identity_without_placeholders() {
    let p = params(&[("id", "1")]);
    let path = "/v1/tenants/all?x=1";
    let once = replace_path_params(path, &p);
    assert_eq!(once, path);
    let twice = replace_path_params(&once, &p);
    assert_eq!(twice, once);
}

#[test]
fn placeholder_edges() {
    let p = params(&[("id", "7")]);
    // a colon with no word character after it is no placeholder
    assert_eq!(replace_path_params("http://h/:/x", &p), "http://h/:/x");
    // a placeholder at the very end
    assert_eq!(replace_path_params("/v1/:id", &p), "/v1/7");
    // the name is the maximal word run
    assert_eq!(replace_path_params("/v1/:idx", &p), "/v1/:idx");
    // back-to-back placeholders
    assert_eq!(replace_path_params(":id:id", &p), "77");
    // the empty path
    assert_eq!(replace_path_params("", &p), "");
}

#[test]
fn lookup_takes_the_last_binding() {
    let p = params(&[("id", "1"), ("id", "2")]);
    assert_eq!(lookup_param(&p, "id"), Some(&"2".to_string()));
    assert_eq!(lookup_param(&p, "missing"), None);
    assert_eq!(replace_path_params("/v1/:id", &p), "/v1/2");
}
