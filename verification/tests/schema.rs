use lark_requests::envelope::{decode_flatten, decode_nested};
use lark_requests::{Body, BodyResponse, FlattenResponse, Response};

#[derive(Debug, Clone)]
pub struct TenantAccessToken {
    tenant_access_token: String,
    expire: u64,
}

impl Body for TenantAccessToken {}

fn token_from_value(v: &serde_json::Value) -> Option<TenantAccessToken> {
    let tenant_access_token = v.get("tenant_access_token")?.as_str()?.to_string();
    let expire = v.get("expire")?.as_u64()?;
    Some(TenantAccessToken {
        tenant_access_token,
        expire,
    })
}

fn token_from_rest(rest: &[(String, serde_json::Value)]) -> Option<TenantAccessToken> {
    let find = |name: &str| {
        rest.iter()
            .find(|(k, _)| k == name)
            .map(|(_, v)| v)
    };
    let tenant_access_token = find("tenant_access_token")?.as_str()?.to_string();
    let expire = find("expire")?.as_u64()?;
    Some(TenantAccessToken {
        tenant_access_token,
        expire,
    })
}

#[test]
fn body_response() {
    let json = r#"
       {
            "code": 0,
            "msg": "ok",
            "data": {
                "tenant_access_token": "xxx",
                "expire": 7200
            }
       }
    "#;

    let raw = decode_nested(json.as_bytes());
    assert!(raw.is_ok());
    let raw = raw.unwrap();
    let payload = raw.data.as_ref().and_then(token_from_value);
    let resp = BodyResponse::new(raw.code, raw.message, payload);
    let data = resp.data();
    assert!(data.is_some());
    let data: TenantAccessToken = data.unwrap();
    assert_eq!("xxx", data.tenant_access_token);
    assert_eq!(7200, data.expire);
}

#[test]
fn body_error_response() {
    let json = r#"
       {
            "code": 100000,
            "msg": "invalid tenant_access_token",
            "data": {}
       }
    "#;
    let raw = decode_nested(json.as_bytes());
    assert!(raw.is_ok());
    let raw = raw.unwrap();
    let payload = raw.data.as_ref().and_then(token_from_value);
    let resp = BodyResponse::new(raw.code, raw.message, payload);
    assert_eq!(false, resp.is_success());
    assert_eq!(100000, resp.code());
    assert_eq!("invalid tenant_access_token", resp.message());

    let data = resp.data();
    assert!(data.is_none());
}

#[test]
fn flatten_response() {
    let json = r#"
       {
            "code": 0,
            "msg": "ok",
            "tenant_access_token": "xxx",
            "expire": 7200
       }
    "#;
    let raw = decode_flatten(json.as_bytes());
    assert!(raw.is_ok());
    let raw = raw.unwrap();
    let payload = token_from_rest(&raw.rest);
    let resp = FlattenResponse::new(raw.code, raw.message, payload);
    let data = resp.data();
    assert!(data.is_some());
    let data = data.unwrap();
    assert_eq!("xxx", data.tenant_access_token);
}

#[test]
fn flatten_body_error_response() {
    let json = r#"
       {
            "code": 100000,
            "msg": "invalid tenant_access_token",
            "data": {}
       }
    "#;
    let raw = decode_flatten(json.as_bytes());
    assert!(raw.is_ok());
    let raw = raw.unwrap();
    let payload = token_from_rest(&raw.rest);
    let resp = FlattenResponse::new(raw.code, raw.message, payload);
    assert_eq!(100000, resp.code());
    assert_eq!("invalid tenant_access_token", resp.message());

    let data = resp.data();
    assert!(data.is_none());
}

#[test]
fn failure_payload_is_discarded_even_when_well_formed() {
    // a failure envelope whose data would decode fine: the payload is
    // still withheld, both at decode time and by data()
    let json = r#"
       {
            "code": 7,
            "msg": "no",
            "data": {
                "tenant_access_token": "xxx",
                "expire": 7200
            }
       }
    "#;
    let raw = decode_nested(json.as_bytes()).expect("decode");
    assert!(raw.data.is_none());
    let resp = BodyResponse::new(7, "no".to_string(), Some(TenantAccessToken {
        tenant_access_token: "xxx".to_string(),
        expire: 7200,
    }));
    assert!(resp.data().is_none());
}
