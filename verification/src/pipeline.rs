use vstd::prelude::*;
use vstd::string::StringExecFns;

use crate::errors::LarkError;
use crate::utils::replace_path_params;

verus! {

// ---------------------------------------------------------------------------
// The URL, behind trusted items
// ---------------------------------------------------------------------------
#[verifier::external_type_specification]
#[verifier::external_body]
pub struct ExUrl(reqwest::Url);

/// Whether the URL parser accepts this text as an absolute URL.  Names the
/// acceptance of reqwest::Url::parse, a function of the text alone.
pub uninterp spec fn url_ok(s: Seq<char>) -> bool;

/// Relies on reqwest::Url::parse (the url crate): parses an absolute URL,
/// succeeding exactly on the texts the parser accepts — `url_ok` names that
/// set.
#[verifier::external_body]
fn parse_url(s: &str) -> (r: Result<reqwest::Url, String>)
    ensures
        r is Ok <==> url_ok(s@),
{
    match reqwest::Url::parse(s) {
        Ok(u) => Ok(u),
        Err(e) => Err(e.to_string()),
    }
}

/// Relies on url::Url::query_pairs_mut and its Serializer::append_pair:
/// appends one key-value pair to the URL's query, percent-encoding it,
/// keeping the pairs already there.
#[verifier::external_body]
fn url_append_pair(u: &mut reqwest::Url, k: &str, v: &str) {
    u.query_pairs_mut().append_pair(k, v);
}

/// The address text handed to the URL parser: the address with its
/// placeholders substituted when path parameters exist, verbatim otherwise.
pub open spec fn spec_substituted_address(
    address: Seq<char>,
    path_params: Option<Seq<(Seq<char>, Seq<char>)>>,
) -> Seq<char> {
    match path_params {
        Some(params) => crate::utils::spec_subst(address, params),
        None => address,
    }
}

/// Builds the concrete URL of one call: substitutes the `:name`
/// placeholders of the address from the path parameters, parses the result
/// — succeeding exactly when the parser accepts the substituted address,
/// and failing with a transport-class error, code 502, otherwise — then
/// appends the query parameters in order, duplicate keys kept.
pub fn build_url(
    address: &str,
    path_params: &Option<Vec<(String, String)>>,
    query_params: &Option<Vec<(String, String)>>,
) -> (r: Result<reqwest::Url, LarkError>)
    ensures
        r is Ok <==> url_ok(spec_substituted_address(address@, path_params.deep_view())),
        r matches Err(e) ==> e.spec_code() == 502,
{
    let substituted: String = match path_params {
        Some(params) => replace_path_params(address, params),
        None => address.to_owned(),
    };
    proof {
        assert(substituted@ == spec_substituted_address(address@, path_params.deep_view()));
    }
    let mut url = match parse_url(substituted.as_str()) {
        Ok(u) => u,
        Err(text) => {
            return Err(LarkError::new(502, text));
        },
    };
    if let Some(pairs) = query_params {
        let mut i: usize = 0;
        while i < pairs.len()
            decreases pairs.len() - i,
        {
            url_append_pair(&mut url, pairs[i].0.as_str(), pairs[i].1.as_str());
            i += 1;
        }
    }
    Ok(url)
}

// ---------------------------------------------------------------------------
// Resolving a decoded envelope into the payload
// ---------------------------------------------------------------------------
/// Extracts the payload from a decoded envelope: a failure envelope becomes
/// an error carrying its code and message verbatim; a success without a
/// payload is an error, code 502; a success with one yields it.
pub fn resolve_response<P: crate::schema::Response>(resp: P) -> (r: Result<P::Target, LarkError>)
    ensures
        resp.spec_code() != 0 ==> (r matches Err(e) && e.spec_code() == resp.spec_code()
            && e.spec_message() == resp.spec_message()),
        resp.spec_code() == 0 && resp.spec_data() is Some ==> r == Ok::<P::Target, LarkError>(
            resp.spec_data()->Some_0,
        ),
        resp.spec_code() == 0 && resp.spec_data() is None ==> (r matches Err(e) && e.spec_code()
            == 502 && e.spec_message() == "response data is null"@),
{
    if !resp.is_success() {
        return Err(LarkError::from_response(&resp));
    }
    match resp.data() {
        Some(payload) => Ok(payload),
        None => Err(LarkError::new(502, String::from_str("response data is null"))),
    }
}

// ---------------------------------------------------------------------------
// Classifying transport failures
// ---------------------------------------------------------------------------
#[verifier::external_type_specification]
#[verifier::external_body]
pub struct ExReqwestError(reqwest::Error);

/// Relies on reqwest::Error::is_connect: whether connecting failed.
#[verifier::external_body]
fn req_is_connect(e: &reqwest::Error) -> bool {
    e.is_connect()
}

/// Relies on reqwest::Error::is_timeout: whether a timeout was hit.
#[verifier::external_body]
fn req_is_timeout(e: &reqwest::Error) -> bool {
    e.is_timeout()
}

/// Relies on reqwest::Error::is_status: whether the error came from an
/// error status code.
#[verifier::external_body]
fn req_is_status(e: &reqwest::Error) -> bool {
    e.is_status()
}

/// Relies on reqwest::Error::status and StatusCode::as_u16: the status code
/// behind the error, if any.
#[verifier::external_body]
fn req_status_code(e: &reqwest::Error) -> Option<u16> {
    match e.status() {
        Some(s) => Some(s.as_u16()),
        None => None,
    }
}

/// Relies on reqwest::Error's Display impl, through ToString: the error's
/// own words.
#[verifier::external_body]
fn req_error_text(e: &reqwest::Error) -> String {
    e.to_string()
}

/// The error code of a transport failure: the HTTP status where the
/// failure was an error status, 500 for everything else.
pub open spec fn spec_transport_code(
    is_connect: bool,
    is_timeout: bool,
    is_status: bool,
    status: Option<u16>,
) -> u64 {
    if is_connect {
        500
    } else if is_timeout {
        500
    } else if is_status {
        match status {
            Some(s) => s as u64,
            None => 500,
        }
    } else {
        500
    }
}

/// The message prefix of a transport failure, naming its class.
pub open spec fn spec_transport_prefix(
    is_connect: bool,
    is_timeout: bool,
    is_status: bool,
) -> Seq<char> {
    if is_connect {
        "connect error: "@
    } else if is_timeout {
        "timeout error: "@
    } else if is_status {
        "status error: "@
    } else {
        "unknown error: "@
    }
}

/// Turns the observable class of a transport failure into the error
/// surface: connect failures, timeouts and unclassified failures are code
/// 500; an error status keeps its code; the message names the class and
/// carries the transport's own words.
pub fn classify_transport_error(
    is_connect: bool,
    is_timeout: bool,
    is_status: bool,
    status: Option<u16>,
    detail: String,
) -> (r: LarkError)
    ensures
        r.spec_code() == spec_transport_code(is_connect, is_timeout, is_status, status),
        r.spec_message() == spec_transport_prefix(is_connect, is_timeout, is_status) + detail@,
{
    let code: u64 = if is_connect {
        500
    } else if is_timeout {
        500
    } else if is_status {
        match status {
            Some(s) => s as u64,
            None => 500,
        }
    } else {
        500
    };
    let mut message: String = if is_connect {
        String::from_str("connect error: ")
    } else if is_timeout {
        String::from_str("timeout error: ")
    } else if is_status {
        String::from_str("status error: ")
    } else {
        String::from_str("unknown error: ")
    };
    message.append(detail.as_str());
    LarkError::new(code, message)
}

/// Maps a transport failure to the error surface, by the class the
/// transport reports: whatever the transport said of itself, the result is
/// the classification of some failure class.
pub fn from_req_west(err: reqwest::Error) -> (r: LarkError)
    ensures
        exists|is_connect: bool, is_timeout: bool, is_status: bool, status: Option<u16>, detail:
            Seq<char>|
            #![trigger spec_transport_code(is_connect, is_timeout, is_status, status),
                spec_transport_prefix(is_connect, is_timeout, is_status).add(detail)]
            r.spec_code() == spec_transport_code(is_connect, is_timeout, is_status, status)
                && r.spec_message() == spec_transport_prefix(is_connect, is_timeout, is_status)
                + detail,
{
    let is_connect = req_is_connect(&err);
    let is_timeout = req_is_timeout(&err);
    let is_status = req_is_status(&err);
    let status = req_status_code(&err);
    let detail = req_error_text(&err);
    let r = classify_transport_error(is_connect, is_timeout, is_status, status, detail);
    proof {
        assert(r.spec_code() == spec_transport_code(is_connect, is_timeout, is_status, status));
        assert(r.spec_message() == spec_transport_prefix(is_connect, is_timeout, is_status).add(
            detail@,
        ));
    }
    r
}

} // verus!
