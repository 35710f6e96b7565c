use vstd::prelude::*;

use crate::grammar::{
    get_request_attr, parse_bool_var, spec_get_request_attr, spec_scan_flag, Arg, ArgLit,
    ArgLitView, ArgView, Attr, AttrView, DescriptorError, DescriptorErrorView, GrammarError,
};
use crate::strutil::str_eq;

verus! {

/// The eight HTTP verbs the container annotation accepts.
#[derive(Debug, Clone, Copy, PartialEq, Eq, Structural)]
pub enum Method {
    Options,
    Get,
    Post,
    Put,
    Delete,
    Patch,
    Trace,
    Head,
}

/// The container-level descriptor of one request type: its verb, its URL
/// template, the payload type of its response (as a path), whether the
/// envelope is flattened, and an optional explicit body flag.
#[derive(Debug)]
pub struct RequestVariable {
    pub method: Option<Method>,
    pub address: Option<String>,
    pub response: Option<Vec<String>>,
    pub flatten: bool,
    pub body: Option<bool>,
}

/// Mathematical model of a [`RequestVariable`].
pub struct RequestVariableView {
    pub method: Option<Method>,
    pub address: Option<Seq<char>>,
    pub response: Option<Seq<Seq<char>>>,
    pub flatten: bool,
    pub body: Option<bool>,
}

impl View for RequestVariable {
    type V = RequestVariableView;

    open spec fn view(&self) -> RequestVariableView {
        RequestVariableView {
            method: match self.method {
                Some(m) => Some(m),
                None => None,
            },
            address: match &self.address {
                Some(a) => Some(a@),
                None => None,
            },
            response: match &self.response {
                Some(r) => Some(r.deep_view()),
                None => None,
            },
            flatten: self.flatten,
            body: self.body,
        }
    }
}

// ---------------------------------------------------------------------------
// The three positional arguments
// ---------------------------------------------------------------------------
/// The verb a bare identifier stands for, if any.
pub open spec fn method_of_name(s: Seq<char>) -> Option<Method> {
    if s == "OPTIONS"@ {
        Some(Method::Options)
    } else if s == "GET"@ {
        Some(Method::Get)
    } else if s == "POST"@ {
        Some(Method::Post)
    } else if s == "PUT"@ {
        Some(Method::Put)
    } else if s == "DELETE"@ {
        Some(Method::Delete)
    } else if s == "PATCH"@ {
        Some(Method::Patch)
    } else if s == "TRACE"@ {
        Some(Method::Trace)
    } else if s == "HEAD"@ {
        Some(Method::Head)
    } else {
        None
    }
}

/// What the method argument yields: a single-segment path that is one of
/// the eight verbs.
pub open spec fn spec_parse_method(a: ArgView) -> Option<Method> {
    match a {
        ArgView::Path(segs) => if segs.len() == 1 {
            method_of_name(segs[0])
        } else {
            None
        },
        _ => None,
    }
}

/// What the address argument yields: a bare string literal.
pub open spec fn spec_parse_address(a: ArgView) -> Option<Seq<char>> {
    match a {
        ArgView::Lit(ArgLitView::Str(s)) => Some(s),
        _ => None,
    }
}

/// What the response argument yields: any bare path.
pub open spec fn spec_parse_response(a: ArgView) -> Option<Seq<Seq<char>>> {
    match a {
        ArgView::Path(segs) => Some(segs),
        _ => None,
    }
}

fn method_of(s: &str) -> (r: Option<Method>)
    ensures
        r == method_of_name(s@),
{
    if str_eq(s, "OPTIONS") {
        Some(Method::Options)
    } else if str_eq(s, "GET") {
        Some(Method::Get)
    } else if str_eq(s, "POST") {
        Some(Method::Post)
    } else if str_eq(s, "PUT") {
        Some(Method::Put)
    } else if str_eq(s, "DELETE") {
        Some(Method::Delete)
    } else if str_eq(s, "PATCH") {
        Some(Method::Patch)
    } else if str_eq(s, "TRACE") {
        Some(Method::Trace)
    } else if str_eq(s, "HEAD") {
        Some(Method::Head)
    } else {
        None
    }
}

fn parse_method(arg: &Arg) -> (r: Option<Method>)
    ensures
        r == spec_parse_method(arg@),
{
    match arg {
        Arg::Path(segs) => {
            if segs.len() == 1 {
                method_of(segs[0].as_str())
            } else {
                None
            }
        },
        _ => None,
    }
}

fn parse_address(arg: &Arg) -> (r: Option<String>)
    ensures
        r.deep_view() == spec_parse_address(arg@),
{
    match arg {
        Arg::Lit(ArgLit::Str(s)) => Some(s.clone()),
        _ => None,
    }
}

fn parse_response_data(arg: &Arg) -> (r: Option<Vec<String>>)
    ensures
        match r {
            Some(segs) => spec_parse_response(arg@) == Some(segs.deep_view()),
            None => spec_parse_response(arg@) is None,
        },
{
    match arg {
        Arg::Path(segs) => Some(crate::grammar::clone_strings(segs)),
        _ => None,
    }
}

// ---------------------------------------------------------------------------
// The container parse
// ---------------------------------------------------------------------------
/// One flag option taken out of the pool: the matched value, if any, and
/// the pool without the consumed argument; a fault yields the offending
/// argument.
pub open spec fn spec_take_flag(args: Seq<ArgView>, name: Seq<char>) -> Result<
    (Option<bool>, Seq<ArgView>),
    ArgView,
> {
    match spec_scan_flag(args, name) {
        Err(j) => Err(args[j]),
        Ok(Some((b, i))) => Ok((Some(b), args.remove(i))),
        Ok(None) => Ok((None, args)),
    }
}

/// What parsing the argument list of the `request` annotation yields, once
/// method and address are resolved and `k` arguments are consumed.
pub open spec fn spec_parse_rest(
    m: Method,
    addr: Seq<char>,
    args: Seq<ArgView>,
    k: int,
) -> Result<RequestVariableView, DescriptorErrorView> {
    if args.len() <= k {
        Err(DescriptorErrorView::MissingArgument)
    } else if spec_parse_response(args[k]) is Some {
        let resp = spec_parse_response(args[k])->Some_0;
        let rest = args.skip(k + 1);
        match spec_take_flag(rest, "flatten"@) {
            Err(a) => Err(DescriptorErrorView::Grammar(a)),
            Ok((fl, rest2)) => match spec_take_flag(rest2, "body"@) {
                Err(a) => Err(DescriptorErrorView::Grammar(a)),
                Ok((body, rest3)) => {
                    let flatten = match fl {
                        Some(b) => b,
                        None => false,
                    };
                    if rest3.len() > 0 {
                        Err(DescriptorErrorView::Unexpected(rest3[0]))
                    } else {
                        Ok(
                            RequestVariableView {
                                method: Some(m),
                                address: Some(addr),
                                response: Some(resp),
                                flatten,
                                body,
                            },
                        )
                    }
                },
            },
        }
    } else {
        Err(DescriptorErrorView::BadArgument(args[k]))
    }
}

fn take_flag_option(pool: Vec<Arg>, name: &str) -> (r: Result<
    (Option<bool>, Vec<Arg>),
    GrammarError,
>)
    ensures
        match (r, spec_take_flag(pool.deep_view(), name@)) {
            (Ok((b, rest)), Ok((sb, srest))) => b == sb && rest.deep_view() == srest,
            (Err(e), Err(sa)) => e@ == sa,
            _ => false,
        },
{
    let ghost dv = pool.deep_view();
    let mut pool = pool;
    match parse_bool_var(&pool, name) {
        Err(e) => Err(e),
        Ok(Some((b, idx))) => {
            pool.remove(idx);
            proof {
                crate::grammar::lemma_deep_view_remove(dv, pool.deep_view(), idx as int);
            }
            Ok((Some(b), pool))
        },
        Ok(None) => Ok((None, pool)),
    }
}

/// What parsing the argument list of the `request` annotation yields: the
/// first argument is the verb, or else the URL with the verb defaulting to
/// `POST`; then the URL if still missing; then the response type; then the
/// optional `flatten` and `body` flags; anything left is an error.
pub open spec fn spec_parse_args(args: Seq<ArgView>) -> Result<
    RequestVariableView,
    DescriptorErrorView,
> {
    if args.len() == 0 {
        Err(DescriptorErrorView::MissingArgument)
    } else if spec_parse_method(args[0]) is Some {
        let m = spec_parse_method(args[0])->Some_0;
        if args.len() < 2 {
            Err(DescriptorErrorView::MissingArgument)
        } else if spec_parse_address(args[1]) is Some {
            spec_parse_rest(m, spec_parse_address(args[1])->Some_0, args, 2)
        } else {
            Err(DescriptorErrorView::BadArgument(args[1]))
        }
    } else if spec_parse_address(args[0]) is Some {
        spec_parse_rest(Method::Post, spec_parse_address(args[0])->Some_0, args, 1)
    } else {
        Err(DescriptorErrorView::BadArgument(args[0]))
    }
}

/// What [`parse`] yields on an annotation list: the parse of the argument
/// list of its one `request` annotation.
pub open spec fn spec_container_parse(attrs: Seq<AttrView>) -> Result<
    RequestVariableView,
    DescriptorErrorView,
> {
    match spec_get_request_attr(attrs) {
        Err(_) => Err(DescriptorErrorView::DuplicateAttribute),
        Ok(None) => Err(DescriptorErrorView::MissingAttribute),
        Ok(Some(j)) => spec_parse_args(attrs[j].args),
    }
}

/// Relates the exec result of [`parse`] to its specification.
pub open spec fn container_result_matches(
    r: Result<RequestVariable, DescriptorError>,
    attrs: Seq<AttrView>,
) -> bool {
    match (r, spec_container_parse(attrs)) {
        (Ok(v), Ok(sv)) => v@ == sv,
        (Err(e), Err(se)) => e@ == se,
        _ => false,
    }
}

/// Parses the one struct-level `request` annotation out of `attrs` into a
/// [`RequestVariable`].
pub fn parse(attrs: &Vec<Attr>) -> (r: Result<RequestVariable, DescriptorError>)
    ensures
        container_result_matches(r, attrs.deep_view()),
        r matches Ok(v) ==> (v@.method is Some && v@.address is Some && v@.response is Some),
{
    let attr = match get_request_attr(attrs) {
        Err(e) => {
            return Err(e);
        },
        Ok(None) => {
            return Err(DescriptorError::MissingAttribute);
        },
        Ok(Some(a)) => a,
    };
    let ghost args0 = attr@.args;
    let mut pool = crate::grammar::clone_args(&attr.args);

    // the verb, or the URL with the verb defaulting to POST
    if pool.len() == 0 {
        return Err(DescriptorError::MissingArgument);
    }
    let first = pool.remove(0);
    let mut consumed: usize = 1;
    let method: Method;
    let mut address: Option<String> = None;
    match parse_method(&first) {
        Some(m) => {
            method = m;
        },
        None => {
            match parse_address(&first) {
                Some(a) => {
                    method = Method::Post;
                    address = Some(a);
                },
                None => {
                    return Err(DescriptorError::BadArgument(first));
                },
            }
        },
    }
    proof {
        assert(pool.deep_view() =~= args0.skip(1));
    }

    // the URL, when the first argument was the verb
    let address: String = match address {
        Some(a) => a,
        None => {
            if pool.len() == 0 {
                return Err(DescriptorError::MissingArgument);
            }
            let second = pool.remove(0);
            consumed = 2;
            proof {
                assert(pool.deep_view() =~= args0.skip(2));
            }
            match parse_address(&second) {
                Some(a) => a,
                None => {
                    return Err(DescriptorError::BadArgument(second));
                },
            }
        },
    };

    // the response payload type
    if pool.len() == 0 {
        return Err(DescriptorError::MissingArgument);
    }
    let resp_arg = pool.remove(0);
    proof {
        assert(pool.deep_view() =~= args0.skip(consumed as int + 1));
    }
    let response: Vec<String> = match parse_response_data(&resp_arg) {
        Some(segs) => segs,
        None => {
            return Err(DescriptorError::BadArgument(resp_arg));
        },
    };

    // the optional flags, each consumed from the remaining pool
    let (fl, pool) = match take_flag_option(pool, "flatten") {
        Err(e) => {
            return Err(DescriptorError::Grammar(e));
        },
        Ok(t) => t,
    };
    let flatten = match fl {
        Some(b) => b,
        None => false,
    };
    let (body, mut pool) = match take_flag_option(pool, "body") {
        Err(e) => {
            return Err(DescriptorError::Grammar(e));
        },
        Ok(t) => t,
    };

    // nothing may be left
    if pool.len() > 0 {
        let leftover = pool.remove(0);
        return Err(DescriptorError::Unexpected(leftover));
    }

    Ok(
        RequestVariable {
            method: Some(method),
            address: Some(address),
            response: Some(response),
            flatten,
            body,
        },
    )
}

// ---------------------------------------------------------------------------
// Reading a parsed descriptor
// ---------------------------------------------------------------------------
/// The response contract of a request type: the payload type's path, under
/// the envelope shape the `flatten` flag selected.
#[derive(Debug)]
pub enum ResponseShape {
    /// payload nested under the envelope's `data` field
    Nested(Vec<String>),
    /// payload fields merged into the envelope's top level
    Flattened(Vec<String>),
}

impl RequestVariable {
    /// The resolved verb.
    pub fn method(&self) -> (r: Method)
        requires
            self@.method is Some,
        ensures
            r == self@.method->Some_0,
    {
        match self.method {
            Some(m) => m,
            None => unreached(),
        }
    }

    /// The URL template, placeholders unresolved.
    pub fn address(&self) -> (r: &String)
        requires
            self@.address is Some,
        ensures
            r@ == self@.address->Some_0,
    {
        match &self.address {
            Some(a) => a,
            None => unreached(),
        }
    }

    /// The response shape: the payload type's path, nested or flattened
    /// according to the `flatten` flag.
    pub fn response(&self) -> (r: ResponseShape)
        requires
            self@.response is Some,
        ensures
            self@.flatten ==> (r matches ResponseShape::Flattened(segs) && segs.deep_view()
                == self@.response->Some_0),
            !self@.flatten ==> (r matches ResponseShape::Nested(segs) && segs.deep_view()
                == self@.response->Some_0),
    {
        let segs = match &self.response {
            Some(segs) => crate::grammar::clone_strings(segs),
            None => unreached(),
        };
        if self.flatten {
            ResponseShape::Flattened(segs)
        } else {
            ResponseShape::Nested(segs)
        }
    }

    /// Whether the request carries a body: the explicit `body` flag when
    /// given, else every verb but `GET` does.
    pub open spec fn spec_body(v: RequestVariableView) -> bool {
        match v.body {
            Some(b) => b,
            None => v.method != Some(Method::Get),
        }
    }

    /// The resolved body flag.
    pub fn body(&self) -> (r: bool)
        requires
            self@.body is Some || self@.method is Some,
        ensures
            r == Self::spec_body(self@),
    {
        match self.body {
            Some(b) => b,
            None => {
                match self.method {
                    Some(m) => !(matches!(m, Method::Get)),
                    None => unreached(),
                }
            },
        }
    }
}

} // verus!
