use vstd::prelude::*;
use vstd::string::StringExecFns;

use crate::errors::LarkError;
use crate::strutil::str_eq;

verus! {

// ---------------------------------------------------------------------------
// The structured codec, behind trusted items
//
// Envelopes arrive as JSON text.  Decoding runs in two passes: serde_json
// first parses the bytes into an untyped object, then the verified state
// machine below reads `code` and `msg` and decides what becomes of the
// payload fields.  The payload itself is carried through as an opaque
// `serde_json::Value`.
// ---------------------------------------------------------------------------
#[verifier::external_type_specification]
#[verifier::external_body]
pub struct ExValue(serde_json::Value);

/// Relies on serde_json::from_slice for `serde_json::Map<String, Value>`:
/// it succeeds exactly on JSON text whose top level is one object, and the
/// map holds each key once (a later duplicate replaces the earlier value);
/// and on the map's iteration, which yields every entry.
#[verifier::external_body]
fn parse_object(bytes: &[u8]) -> (r: Result<Vec<(String, serde_json::Value)>, String>)
    ensures
        r matches Ok(entries) ==> forall|i: int, j: int|
            0 <= i < j < entries@.len() ==> entries@[i].0@ != entries@[j].0@,
{
    match serde_json::from_slice::<serde_json::Map<String, serde_json::Value>>(bytes) {
        Ok(m) => Ok(m.into_iter().collect()),
        Err(e) => Err(e.to_string()),
    }
}

/// Relies on serde_json::Value::as_u64: `Some` exactly when the value is an
/// unsigned integer that fits.
#[verifier::external_body]
fn json_as_u64(v: &serde_json::Value) -> Option<u64> {
    v.as_u64()
}

/// Relies on serde_json::Value::as_str: `Some` exactly when the value is a
/// string.
#[verifier::external_body]
fn json_as_string(v: &serde_json::Value) -> Option<String> {
    match v.as_str() {
        Some(s) => Some(s.to_string()),
        None => None,
    }
}

// ---------------------------------------------------------------------------
// Classifying the envelope's fields
// ---------------------------------------------------------------------------
/// One top-level field of an envelope object, as the resolver sees it.
#[derive(Debug)]
pub enum EnvelopeField {
    /// the `code` field, holding an unsigned integer
    Code(u64),
    /// the `code` field, holding anything else
    BadCode,
    /// the `msg` field, holding a string
    Msg(String),
    /// the `msg` field, holding anything else
    BadMsg,
    /// the `data` field, its value carried through untouched
    Data(serde_json::Value),
    /// any other field, name and value carried through
    Other(String, serde_json::Value),
}

/// Mathematical model of an [`EnvelopeField`].
pub enum EnvelopeFieldView {
    Code(u64),
    BadCode,
    Msg(Seq<char>),
    BadMsg,
    Data(serde_json::Value),
    Other(Seq<char>, serde_json::Value),
}

impl View for EnvelopeField {
    type V = EnvelopeFieldView;

    open spec fn view(&self) -> EnvelopeFieldView {
        match self {
            EnvelopeField::Code(c) => EnvelopeFieldView::Code(*c),
            EnvelopeField::BadCode => EnvelopeFieldView::BadCode,
            EnvelopeField::Msg(s) => EnvelopeFieldView::Msg(s@),
            EnvelopeField::BadMsg => EnvelopeFieldView::BadMsg,
            EnvelopeField::Data(v) => EnvelopeFieldView::Data(*v),
            EnvelopeField::Other(k, v) => EnvelopeFieldView::Other(k@, *v),
        }
    }
}

impl DeepView for EnvelopeField {
    type V = EnvelopeFieldView;

    open spec fn deep_view(&self) -> EnvelopeFieldView {
        self.view()
    }
}

/// Which key a classified field came from.
pub open spec fn field_matches_key(f: EnvelopeFieldView, key: Seq<char>) -> bool {
    match f {
        EnvelopeFieldView::Code(_) => key == "code"@,
        EnvelopeFieldView::BadCode => key == "code"@,
        EnvelopeFieldView::Msg(_) => key == "msg"@,
        EnvelopeFieldView::BadMsg => key == "msg"@,
        EnvelopeFieldView::Data(_) => key == "data"@,
        EnvelopeFieldView::Other(k, _) => k == key && key != "code"@ && key != "msg"@ && key
            != "data"@,
    }
}

/// Classifies one top-level entry: `code` and `msg` have their values read
/// as integer and string, `data` and unknown fields are carried through.
fn classify_entry(key: String, v: serde_json::Value) -> (r: EnvelopeField)
    ensures
        field_matches_key(r@, key@),
        r matches EnvelopeField::Data(d) ==> d == v,
        r matches EnvelopeField::Other(k, d) ==> k@ == key@ && d == v,
{
    if str_eq(key.as_str(), "code") {
        match json_as_u64(&v) {
            Some(c) => EnvelopeField::Code(c),
            None => EnvelopeField::BadCode,
        }
    } else if str_eq(key.as_str(), "msg") {
        match json_as_string(&v) {
            Some(s) => EnvelopeField::Msg(s),
            None => EnvelopeField::BadMsg,
        }
    } else if str_eq(key.as_str(), "data") {
        EnvelopeField::Data(v)
    } else {
        EnvelopeField::Other(key, v)
    }
}

/// Classifies a whole envelope object, keeping the field order.
fn classify_fields(entries: Vec<(String, serde_json::Value)>) -> (r: Vec<EnvelopeField>)
    ensures
        r.deep_view().len() == entries@.len(),
        forall|i: int|
            0 <= i < entries@.len() ==> field_matches_key(
                #[trigger] r.deep_view()[i],
                entries@[i].0@,
            ),
{
    let ghost ev = entries@;
    let n = entries.len();
    let mut entries = entries;
    let mut out: Vec<EnvelopeField> = Vec::new();
    let mut i: usize = 0;
    while i < n
        invariant
            i <= n,
            i as int + entries@.len() == n as int,
            n as int == ev.len(),
            out.deep_view().len() == i as int,
            forall|k: int| 0 <= k < entries@.len() ==> entries@[k] == ev[i as int + k],
            forall|k: int|
                0 <= k < i as int ==> field_matches_key(#[trigger] out.deep_view()[k], ev[k].0@),
        decreases n - i,
    {
        proof {
            assert(entries@[0] == ev[i as int]);
        }
        let (key, v) = entries.remove(0);
        proof {
            assert(key@ == ev[i as int].0@);
        }
        let f = classify_entry(key, v);
        let ghost fview = f@;
        let ghost prev = out@;
        let ghost prevdv = out.deep_view();
        out.push(f);
        proof {
            assert(out.deep_view()[i as int] == fview);
            assert forall|k: int| 0 <= k < i as int + 1 implies field_matches_key(
                #[trigger] out.deep_view()[k],
                ev[k].0@,
            ) by {
                assert(out.deep_view()[k] == out@[k].deep_view());
                if k < i as int {
                    assert(out@[k] == prev[k]);
                    assert(prevdv[k] == prev[k].deep_view());
                    assert(field_matches_key(prevdv[k], ev[k].0@));
                } else {
                    assert(out@[k] == f);
                }
            }
        }
        i += 1;
    }
    out
}

// ---------------------------------------------------------------------------
// The nested-envelope resolver
// ---------------------------------------------------------------------------
/// Why an envelope object does not decode.
#[derive(Debug)]
pub enum EnvelopeDecodeError {
    /// a top-level field that is none of `code`, `msg`, `data`
    UnknownField(String),
    /// a `code` field that is no unsigned integer
    BadCodeValue,
    /// a `msg` field that is no string
    BadMsgValue,
    /// no `code` field at all
    MissingCode,
    /// no `msg` field at all
    MissingMsg,
}

/// Mathematical model of an [`EnvelopeDecodeError`].
pub enum EnvelopeDecodeErrorView {
    UnknownField(Seq<char>),
    BadCodeValue,
    BadMsgValue,
    MissingCode,
    MissingMsg,
}

impl View for EnvelopeDecodeError {
    type V = EnvelopeDecodeErrorView;

    open spec fn view(&self) -> EnvelopeDecodeErrorView {
        match self {
            EnvelopeDecodeError::UnknownField(k) => EnvelopeDecodeErrorView::UnknownField(k@),
            EnvelopeDecodeError::BadCodeValue => EnvelopeDecodeErrorView::BadCodeValue,
            EnvelopeDecodeError::BadMsgValue => EnvelopeDecodeErrorView::BadMsgValue,
            EnvelopeDecodeError::MissingCode => EnvelopeDecodeErrorView::MissingCode,
            EnvelopeDecodeError::MissingMsg => EnvelopeDecodeErrorView::MissingMsg,
        }
    }
}

/// A decoded nested envelope, its payload still raw: the `data` value is
/// kept only when the code read so far was zero when `data` arrived.
#[derive(Debug)]
pub struct RawNested {
    pub code: u64,
    pub message: String,
    pub data: Option<serde_json::Value>,
}

/// Mathematical model of a [`RawNested`].
pub struct RawNestedView {
    pub code: u64,
    pub message: Seq<char>,
    pub data: Option<serde_json::Value>,
}

impl View for RawNested {
    type V = RawNestedView;

    open spec fn view(&self) -> RawNestedView {
        RawNestedView {
            code: self.code,
            message: self.message@,
            data: match &self.data {
                Some(v) => Some(*v),
                None => None,
            },
        }
    }
}

/// The nested-envelope state machine, from field `i` on, with the code,
/// message and payload read so far: a `code` or `msg` field stores its
/// value; a `data` field is kept when the code read so far is zero and
/// discarded otherwise, whatever its shape; an unknown field stops the
/// decode.  At the end `code` and `msg` must both have arrived.
pub open spec fn spec_resolve_nested_from(
    fields: Seq<EnvelopeFieldView>,
    i: int,
    code: Option<u64>,
    msg: Option<Seq<char>>,
    data: Option<serde_json::Value>,
) -> Result<RawNestedView, EnvelopeDecodeErrorView>
    decreases fields.len() - i,
{
    if i < 0 || i >= fields.len() {
        match code {
            None => Err(EnvelopeDecodeErrorView::MissingCode),
            Some(c) => match msg {
                None => Err(EnvelopeDecodeErrorView::MissingMsg),
                Some(m) => Ok(RawNestedView { code: c, message: m, data }),
            },
        }
    } else {
        match fields[i] {
            EnvelopeFieldView::Code(c) => spec_resolve_nested_from(fields, i + 1, Some(c), msg, data),
            EnvelopeFieldView::BadCode => Err(EnvelopeDecodeErrorView::BadCodeValue),
            EnvelopeFieldView::Msg(s) => spec_resolve_nested_from(fields, i + 1, code, Some(s), data),
            EnvelopeFieldView::BadMsg => Err(EnvelopeDecodeErrorView::BadMsgValue),
            EnvelopeFieldView::Data(v) => if code == Some(0u64) {
                spec_resolve_nested_from(fields, i + 1, code, msg, Some(v))
            } else {
                spec_resolve_nested_from(fields, i + 1, code, msg, data)
            },
            EnvelopeFieldView::Other(k, _) => Err(EnvelopeDecodeErrorView::UnknownField(k)),
        }
    }
}

/// What [`resolve_nested_fields`] yields on a field list.
pub open spec fn spec_resolve_nested(fields: Seq<EnvelopeFieldView>) -> Result<
    RawNestedView,
    EnvelopeDecodeErrorView,
> {
    spec_resolve_nested_from(fields, 0, None, None, None)
}

/// Runs the nested-envelope state machine over the classified fields.
#[verifier::loop_isolation(false)]
pub fn resolve_nested_fields(fields: Vec<EnvelopeField>) -> (r: Result<
    RawNested,
    EnvelopeDecodeError,
>)
    ensures
        match (r, spec_resolve_nested(fields.deep_view())) {
            (Ok(raw), Ok(sraw)) => raw@ == sraw,
            (Err(e), Err(se)) => e@ == se,
            _ => false,
        },
{
    let ghost fv = fields.deep_view();
    let n = fields.len();
    let mut fields = fields;
    let mut i: usize = 0;
    let mut code: Option<u64> = None;
    let mut message: Option<String> = None;
    let mut data: Option<serde_json::Value> = None;
    while i < n
        invariant
            i <= n,
            i as int + fields@.len() == n as int,
            n as int == fv.len(),
            forall|k: int| 0 <= k < fields@.len() ==> fields@[k].deep_view() == fv[i as int + k],
            spec_resolve_nested(fv) == spec_resolve_nested_from(
                fv,
                i as int,
                code,
                match message {
                    Some(m) => Some(m@),
                    None => None,
                },
                data,
            ),
        decreases n - i,
    {
        proof {
            assert(fields@[0].deep_view() == fv[i as int]);
        }
        let ghost cur = fv[i as int];
        let ghost code0 = code;
        let ghost msg0: Option<Seq<char>> = match message {
            Some(ref m) => Some(m@),
            None => None,
        };
        let ghost data0 = data;
        let f = fields.remove(0);
        proof {
            assert(f.deep_view() == cur);
            assert(spec_resolve_nested(fv) == spec_resolve_nested_from(
                fv,
                i as int,
                code0,
                msg0,
                data0,
            ));
        }
        match f {
            EnvelopeField::Code(c) => {
                code = Some(c);
                proof {
                    assert(cur == EnvelopeFieldView::Code(c));
                }
            },
            EnvelopeField::BadCode => {
                proof {
                    assert(cur is BadCode);
                    assert(spec_resolve_nested_from(fv, i as int, code0, msg0, data0) == Err::<
                        RawNestedView,
                        _,
                    >(EnvelopeDecodeErrorView::BadCodeValue));
                }
                return Err(EnvelopeDecodeError::BadCodeValue);
            },
            EnvelopeField::Msg(s) => {
                proof {
                    assert(cur == EnvelopeFieldView::Msg(s@));
                }
                message = Some(s);
            },
            EnvelopeField::BadMsg => {
                proof {
                    assert(cur is BadMsg);
                    assert(spec_resolve_nested_from(fv, i as int, code0, msg0, data0) == Err::<
                        RawNestedView,
                        _,
                    >(EnvelopeDecodeErrorView::BadMsgValue));
                }
                return Err(EnvelopeDecodeError::BadMsgValue);
            },
            EnvelopeField::Data(v) => {
                let success = match code {
                    Some(c) => c == 0,
                    None => false,
                };
                proof {
                    assert(cur == EnvelopeFieldView::Data(v));
                }
                if success {
                    data = Some(v);
                }
            },
            EnvelopeField::Other(k, _v) => {
                proof {
                    assert(cur matches EnvelopeFieldView::Other(sk, _) && sk == k@);
                    assert(spec_resolve_nested_from(fv, i as int, code0, msg0, data0) == Err::<
                        RawNestedView,
                        _,
                    >(EnvelopeDecodeErrorView::UnknownField(k@)));
                }
                return Err(EnvelopeDecodeError::UnknownField(k));
            },
        }
        i += 1;
    }
    let code = match code {
        Some(c) => c,
        None => {
            return Err(EnvelopeDecodeError::MissingCode);
        },
    };
    let message = match message {
        Some(m) => m,
        None => {
            return Err(EnvelopeDecodeError::MissingMsg);
        },
    };
    Ok(RawNested { code, message, data })
}

// ---------------------------------------------------------------------------
// The flattened-envelope resolver
// ---------------------------------------------------------------------------
/// A decoded flattened envelope: `code` and `msg` read, every other
/// top-level field kept, in order, as the payload's raw material.
#[derive(Debug)]
pub struct RawFlatten {
    pub code: u64,
    pub message: String,
    pub rest: Vec<(String, serde_json::Value)>,
}

/// Mathematical model of a [`RawFlatten`].
pub struct RawFlattenView {
    pub code: u64,
    pub message: Seq<char>,
    pub rest: Seq<(Seq<char>, serde_json::Value)>,
}

impl View for RawFlatten {
    type V = RawFlattenView;

    open spec fn view(&self) -> RawFlattenView {
        RawFlattenView {
            code: self.code,
            message: self.message@,
            rest: Seq::new(self.rest@.len(), |i: int| (self.rest@[i].0@, self.rest@[i].1)),
        }
    }
}

/// The flattened-envelope state machine, from field `i` on: `code` and
/// `msg` store their values; every other field — `data` included — is kept,
/// in order, as payload material.  At the end `code` and `msg` must both
/// have arrived.
pub open spec fn spec_resolve_flatten_from(
    fields: Seq<EnvelopeFieldView>,
    i: int,
    code: Option<u64>,
    msg: Option<Seq<char>>,
    rest: Seq<(Seq<char>, serde_json::Value)>,
) -> Result<RawFlattenView, EnvelopeDecodeErrorView>
    decreases fields.len() - i,
{
    if i < 0 || i >= fields.len() {
        match code {
            None => Err(EnvelopeDecodeErrorView::MissingCode),
            Some(c) => match msg {
                None => Err(EnvelopeDecodeErrorView::MissingMsg),
                Some(m) => Ok(RawFlattenView { code: c, message: m, rest }),
            },
        }
    } else {
        match fields[i] {
            EnvelopeFieldView::Code(c) => spec_resolve_flatten_from(fields, i + 1, Some(c), msg, rest),
            EnvelopeFieldView::BadCode => Err(EnvelopeDecodeErrorView::BadCodeValue),
            EnvelopeFieldView::Msg(s) => spec_resolve_flatten_from(fields, i + 1, code, Some(s), rest),
            EnvelopeFieldView::BadMsg => Err(EnvelopeDecodeErrorView::BadMsgValue),
            EnvelopeFieldView::Data(v) => spec_resolve_flatten_from(
                fields,
                i + 1,
                code,
                msg,
                rest.push(("data"@, v)),
            ),
            EnvelopeFieldView::Other(k, v) => spec_resolve_flatten_from(
                fields,
                i + 1,
                code,
                msg,
                rest.push((k, v)),
            ),
        }
    }
}

/// What [`resolve_flatten_fields`] yields on a field list.
pub open spec fn spec_resolve_flatten(fields: Seq<EnvelopeFieldView>) -> Result<
    RawFlattenView,
    EnvelopeDecodeErrorView,
> {
    spec_resolve_flatten_from(fields, 0, None, None, Seq::empty())
}

/// Runs the flattened-envelope state machine over the classified fields.
#[verifier::loop_isolation(false)]
pub fn resolve_flatten_fields(fields: Vec<EnvelopeField>) -> (r: Result<
    RawFlatten,
    EnvelopeDecodeError,
>)
    ensures
        match (r, spec_resolve_flatten(fields.deep_view())) {
            (Ok(raw), Ok(sraw)) => raw@ == sraw,
            (Err(e), Err(se)) => e@ == se,
            _ => false,
        },
{
    let ghost fv = fields.deep_view();
    let n = fields.len();
    let mut fields = fields;
    let mut i: usize = 0;
    let mut code: Option<u64> = None;
    let mut message: Option<String> = None;
    let mut rest: Vec<(String, serde_json::Value)> = Vec::new();
    let ghost mut restv = Seq::<(Seq<char>, serde_json::Value)>::empty();
    proof {
        assert(Seq::new(rest@.len(), |k: int| (rest@[k].0@, rest@[k].1)) =~= restv);
    }
    while i < n
        invariant
            i <= n,
            i as int + fields@.len() == n as int,
            n as int == fv.len(),
            forall|k: int| 0 <= k < fields@.len() ==> fields@[k].deep_view() == fv[i as int + k],
            Seq::new(rest@.len(), |k: int| (rest@[k].0@, rest@[k].1)) == restv,
            spec_resolve_flatten(fv) == spec_resolve_flatten_from(
                fv,
                i as int,
                code,
                match message {
                    Some(m) => Some(m@),
                    None => None,
                },
                restv,
            ),
        decreases n - i,
    {
        proof {
            assert(fields@[0].deep_view() == fv[i as int]);
        }
        let ghost cur = fv[i as int];
        let ghost code0 = code;
        let ghost msg0: Option<Seq<char>> = match message {
            Some(ref m) => Some(m@),
            None => None,
        };
        let ghost rest0 = restv;
        let f = fields.remove(0);
        proof {
            assert(f.deep_view() == cur);
            assert(spec_resolve_flatten(fv) == spec_resolve_flatten_from(
                fv,
                i as int,
                code0,
                msg0,
                rest0,
            ));
        }
        match f {
            EnvelopeField::Code(c) => {
                code = Some(c);
                proof {
                    assert(cur == EnvelopeFieldView::Code(c));
                }
            },
            EnvelopeField::BadCode => {
                proof {
                    assert(cur is BadCode);
                    assert(spec_resolve_flatten_from(fv, i as int, code0, msg0, rest0) == Err::<
                        RawFlattenView,
                        _,
                    >(EnvelopeDecodeErrorView::BadCodeValue));
                }
                return Err(EnvelopeDecodeError::BadCodeValue);
            },
            EnvelopeField::Msg(s) => {
                proof {
                    assert(cur == EnvelopeFieldView::Msg(s@));
                }
                message = Some(s);
            },
            EnvelopeField::BadMsg => {
                proof {
                    assert(cur is BadMsg);
                    assert(spec_resolve_flatten_from(fv, i as int, code0, msg0, rest0) == Err::<
                        RawFlattenView,
                        _,
                    >(EnvelopeDecodeErrorView::BadMsgValue));
                }
                return Err(EnvelopeDecodeError::BadMsgValue);
            },
            EnvelopeField::Data(v) => {
                let ghost pushed = ("data"@, v);
                proof {
                    assert(cur == EnvelopeFieldView::Data(v));
                }
                rest.push((String::from_str("data"), v));
                proof {
                    restv = restv.push(pushed);
                    assert(Seq::new(rest@.len(), |k: int| (rest@[k].0@, rest@[k].1)) =~= restv);
                }
            },
            EnvelopeField::Other(k, v) => {
                let ghost pushed = (k@, v);
                proof {
                    assert(cur == EnvelopeFieldView::Other(k@, v));
                }
                rest.push((k, v));
                proof {
                    restv = restv.push(pushed);
                    assert(Seq::new(rest@.len(), |k: int| (rest@[k].0@, rest@[k].1)) =~= restv);
                }
            },
        }
        i += 1;
    }
    let code = match code {
        Some(c) => c,
        None => {
            return Err(EnvelopeDecodeError::MissingCode);
        },
    };
    let message = match message {
        Some(m) => m,
        None => {
            return Err(EnvelopeDecodeError::MissingMsg);
        },
    };
    let r = RawFlatten { code, message, rest };
    proof {
        assert(r@.rest =~= restv);
    }
    Ok(r)
}

// ---------------------------------------------------------------------------
// Decoding envelope bytes
// ---------------------------------------------------------------------------
/// The message of a decode error, for the error surface.
fn decode_error_text(e: &EnvelopeDecodeError) -> (r: String)
    ensures
        match e@ {
            EnvelopeDecodeErrorView::UnknownField(k) => r@ == "unknown field `"@ + k + "`"@,
            EnvelopeDecodeErrorView::BadCodeValue => r@ == "invalid value for field `code`"@,
            EnvelopeDecodeErrorView::BadMsgValue => r@ == "invalid value for field `msg`"@,
            EnvelopeDecodeErrorView::MissingCode => r@ == "missing field `code`"@,
            EnvelopeDecodeErrorView::MissingMsg => r@ == "missing field `msg`"@,
        },
{
    match e {
        EnvelopeDecodeError::UnknownField(k) => {
            let mut s = String::from_str("unknown field `");
            s.append(k.as_str());
            s.append("`");
            s
        },
        EnvelopeDecodeError::BadCodeValue => String::from_str("invalid value for field `code`"),
        EnvelopeDecodeError::BadMsgValue => String::from_str("invalid value for field `msg`"),
        EnvelopeDecodeError::MissingCode => String::from_str("missing field `code`"),
        EnvelopeDecodeError::MissingMsg => String::from_str("missing field `msg`"),
    }
}

/// Whether a classified field came from the `code` key.
pub open spec fn is_code_field(f: EnvelopeFieldView) -> bool {
    f is Code || f is BadCode
}

/// Whether at most one field of the list came from the `code` key, as holds
/// of every list classified from a parsed object.
pub open spec fn unique_code_field(fields: Seq<EnvelopeFieldView>) -> bool {
    forall|j: int, k: int|
        0 <= j < k < fields.len() ==> !(is_code_field(#[trigger] fields[j]) && is_code_field(
            #[trigger] fields[k],
        ))
}

proof fn lemma_nested_failure_keeps_no_payload(
    fields: Seq<EnvelopeFieldView>,
    i: int,
    code: Option<u64>,
    msg: Option<Seq<char>>,
    data: Option<serde_json::Value>,
)
    requires
        spec_resolve_nested_from(fields, i, code, msg, data) is Ok,
        spec_resolve_nested_from(fields, i, code, msg, data)->Ok_0.code != 0,
        unique_code_field(fields),
        code is Some ==> forall|j: int|
            i <= j < fields.len() ==> !is_code_field(#[trigger] fields[j]),
        data is Some ==> code == Some(0u64),
    ensures
        spec_resolve_nested_from(fields, i, code, msg, data)->Ok_0.data is None,
    decreases fields.len() - i,
{
    if i < 0 || i >= fields.len() {
        // the result's code is the code read so far, which is not zero, so
        // the payload was never stored
    } else {
        match fields[i] {
            EnvelopeFieldView::Code(c) => {
                assert(is_code_field(fields[i]));
                assert forall|j: int|
                    i + 1 <= j < fields.len() implies !is_code_field(#[trigger] fields[j]) by {
                    assert(!(is_code_field(fields[i]) && is_code_field(fields[j])));
                }
                lemma_nested_failure_keeps_no_payload(fields, i + 1, Some(c), msg, data);
            },
            EnvelopeFieldView::Msg(s) => {
                lemma_nested_failure_keeps_no_payload(fields, i + 1, code, Some(s), data);
            },
            EnvelopeFieldView::Data(v) => {
                if code == Some(0u64) {
                    lemma_nested_failure_keeps_no_payload(fields, i + 1, code, msg, Some(v));
                } else {
                    lemma_nested_failure_keeps_no_payload(fields, i + 1, code, msg, data);
                }
            },
            _ => {},
        }
    }
}

/// The conditional-skip guarantee of the nested envelope, over the whole
/// field list: when the decode succeeds with a non-zero code, no payload
/// was kept — whatever stood in `data` on the wire — provided only that at
/// most one field came from the `code` key, as is the case for every parsed
/// object.
pub proof fn lemma_failure_envelope_has_no_payload(fields: Seq<EnvelopeFieldView>)
    requires
        spec_resolve_nested(fields) is Ok,
        spec_resolve_nested(fields)->Ok_0.code != 0,
        unique_code_field(fields),
    ensures
        spec_resolve_nested(fields)->Ok_0.data is None,
{
    lemma_nested_failure_keeps_no_payload(fields, 0, None, None, None);
}

/// Decodes a nested envelope from JSON bytes.  The text must be one object
/// whose fields are `code`, `msg` and optionally `data`; the payload value
/// is kept raw, and only when the envelope succeeded: a decoded failure
/// carries no payload, whatever stood in `data` on the wire.  Every decode
/// failure is a codec error, code 500.
pub fn decode_nested(bytes: &[u8]) -> (r: Result<RawNested, LarkError>)
    ensures
        r matches Err(e) ==> e.spec_code() == 500,
        r matches Ok(raw) ==> (raw@.code != 0 ==> raw@.data is None),
{
    let entries = match parse_object(bytes) {
        Ok(entries) => entries,
        Err(text) => {
            return Err(crate::errors::json_error(text));
        },
    };
    let ghost ev = entries@;
    let fields = classify_fields(entries);
    let ghost fv = fields.deep_view();
    proof {
        assert forall|j: int, k: int| 0 <= j < k < fv.len() implies !(is_code_field(
            #[trigger] fv[j],
        ) && is_code_field(#[trigger] fv[k])) by {
            if is_code_field(fv[j]) && is_code_field(fv[k]) {
                assert(field_matches_key(fv[j], ev[j].0@));
                assert(field_matches_key(fv[k], ev[k].0@));
                assert(ev[j].0@ == "code"@ && ev[k].0@ == "code"@);
            }
        }
    }
    match resolve_nested_fields(fields) {
        Ok(raw) => {
            proof {
                if raw@.code != 0 {
                    lemma_failure_envelope_has_no_payload(fv);
                }
            }
            Ok(raw)
        },
        Err(e) => Err(LarkError::new(500, decode_error_text(&e))),
    }
}

/// Whether no pair of the list is keyed `code` or `msg`.
pub open spec fn no_envelope_keys(rest: Seq<(Seq<char>, serde_json::Value)>) -> bool {
    forall|j: int|
        0 <= j < rest.len() ==> (#[trigger] rest[j].0 != "code"@ && rest[j].0 != "msg"@)
}

proof fn lemma_flatten_rest_keys(
    fields: Seq<EnvelopeFieldView>,
    i: int,
    code: Option<u64>,
    msg: Option<Seq<char>>,
    rest: Seq<(Seq<char>, serde_json::Value)>,
)
    requires
        spec_resolve_flatten_from(fields, i, code, msg, rest) is Ok,
        no_envelope_keys(rest),
        forall|j: int|
            i <= j < fields.len() ==> (match #[trigger] fields[j] {
                EnvelopeFieldView::Other(k, _) => k != "code"@ && k != "msg"@,
                _ => true,
            }),
    ensures
        no_envelope_keys(spec_resolve_flatten_from(fields, i, code, msg, rest)->Ok_0.rest),
    decreases fields.len() - i,
{
    reveal_strlit("code");
    reveal_strlit("msg");
    reveal_strlit("data");
    if i < 0 || i >= fields.len() {
    } else {
        match fields[i] {
            EnvelopeFieldView::Code(c) => {
                lemma_flatten_rest_keys(fields, i + 1, Some(c), msg, rest);
            },
            EnvelopeFieldView::Msg(s) => {
                lemma_flatten_rest_keys(fields, i + 1, code, Some(s), rest);
            },
            EnvelopeFieldView::Data(v) => {
                let pushed = rest.push(("data"@, v));
                assert("data"@[0] == 'd' && "code"@[0] == 'c');
                assert("data"@.len() == 4 && "msg"@.len() == 3);
                assert("data"@ != "code"@ && "data"@ != "msg"@);
                assert(no_envelope_keys(pushed));
                lemma_flatten_rest_keys(fields, i + 1, code, msg, pushed);
            },
            EnvelopeFieldView::Other(k, v) => {
                let pushed = rest.push((k, v));
                assert(no_envelope_keys(pushed));
                lemma_flatten_rest_keys(fields, i + 1, code, msg, pushed);
            },
            _ => {},
        }
    }
}

/// The field separation of the flattened envelope: a successful decode
/// keeps `code` and `msg` out of the payload material — the kept pairs
/// carry every other key.
pub proof fn lemma_flatten_rest_has_no_envelope_keys(fields: Seq<EnvelopeFieldView>)
    requires
        spec_resolve_flatten(fields) is Ok,
        forall|j: int|
            0 <= j < fields.len() ==> (match #[trigger] fields[j] {
                EnvelopeFieldView::Other(k, _) => k != "code"@ && k != "msg"@,
                _ => true,
            }),
    ensures
        no_envelope_keys(spec_resolve_flatten(fields)->Ok_0.rest),
{
    lemma_flatten_rest_keys(
        fields,
        0,
        None,
        None,
        Seq::<(Seq<char>, serde_json::Value)>::empty(),
    );
}

/// Decodes a flattened envelope from JSON bytes.  The text must be one
/// object with `code` and `msg`; every other top-level field is kept, in
/// order, as the payload's raw material — `code` and `msg` themselves never
/// are.  Every failure is a codec error, code 500.
pub fn decode_flatten(bytes: &[u8]) -> (r: Result<RawFlatten, LarkError>)
    ensures
        r matches Err(e) ==> e.spec_code() == 500,
        r matches Ok(raw) ==> no_envelope_keys(raw@.rest),
{
    let entries = match parse_object(bytes) {
        Ok(entries) => entries,
        Err(text) => {
            return Err(crate::errors::json_error(text));
        },
    };
    let ghost ev = entries@;
    let fields = classify_fields(entries);
    let ghost fv = fields.deep_view();
    proof {
        assert forall|j: int| 0 <= j < fv.len() implies (match #[trigger] fv[j] {
            EnvelopeFieldView::Other(k, _) => k != "code"@ && k != "msg"@,
            _ => true,
        }) by {
            assert(field_matches_key(fv[j], ev[j].0@));
        }
    }
    match resolve_flatten_fields(fields) {
        Ok(raw) => {
            proof {
                lemma_flatten_rest_has_no_envelope_keys(fv);
            }
            Ok(raw)
        },
        Err(e) => Err(LarkError::new(500, decode_error_text(&e))),
    }
}

} // verus!
