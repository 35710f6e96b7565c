use vstd::prelude::*;

use crate::strutil::str_eq;

verus! {

// ---------------------------------------------------------------------------
// The argument model
//
// One annotation carries an ordered list of argument expressions.  Each
// argument is either positional (a bare path or literal) or named
// (`name = <literal>`).  The variants below are exactly the shapes the
// grammar distinguishes; anything else is `Other` and is never matched.
// ---------------------------------------------------------------------------
/// A literal appearing in an annotation argument.
#[derive(Debug)]
pub enum ArgLit {
    Bool(bool),
    Str(String),
    /// a literal of any other kind (integer, char, ...)
    Other,
}

/// Mathematical model of an [`ArgLit`].
pub enum ArgLitView {
    Bool(bool),
    Str(Seq<char>),
    Other,
}

impl View for ArgLit {
    type V = ArgLitView;

    open spec fn view(&self) -> ArgLitView {
        match self {
            ArgLit::Bool(b) => ArgLitView::Bool(*b),
            ArgLit::Str(s) => ArgLitView::Str(s@),
            ArgLit::Other => ArgLitView::Other,
        }
    }
}

impl DeepView for ArgLit {
    type V = ArgLitView;

    open spec fn deep_view(&self) -> ArgLitView {
        self.view()
    }
}

impl Clone for ArgLit {
    fn clone(&self) -> (r: Self)
        ensures
            r@ == self@,
    {
        match self {
            ArgLit::Bool(b) => ArgLit::Bool(*b),
            ArgLit::Str(s) => ArgLit::Str(s.clone()),
            ArgLit::Other => ArgLit::Other,
        }
    }
}

/// One argument expression of an annotation.
#[derive(Debug)]
pub enum Arg {
    /// a bare path, e.g. `GET`, `flatten`, or `module::ResponseData`,
    /// given as its segments
    Path(Vec<String>),
    /// a bare literal, e.g. `"https://example.com"`
    Lit(ArgLit),
    /// `name = <literal>`
    Assign(String, ArgLit),
    /// `name = <expression that is no literal>`
    AssignOther(String),
    /// any other expression shape
    Other,
}

/// Mathematical model of an [`Arg`].
pub enum ArgView {
    Path(Seq<Seq<char>>),
    Lit(ArgLitView),
    Assign(Seq<char>, ArgLitView),
    AssignOther(Seq<char>),
    Other,
}

impl View for Arg {
    type V = ArgView;

    open spec fn view(&self) -> ArgView {
        match self {
            Arg::Path(segs) => ArgView::Path(segs.deep_view()),
            Arg::Lit(l) => ArgView::Lit(l@),
            Arg::Assign(n, l) => ArgView::Assign(n@, l@),
            Arg::AssignOther(n) => ArgView::AssignOther(n@),
            Arg::Other => ArgView::Other,
        }
    }
}

impl DeepView for Arg {
    type V = ArgView;

    open spec fn deep_view(&self) -> ArgView {
        self.view()
    }
}

pub(crate) fn clone_strings(v: &Vec<String>) -> (r: Vec<String>)
    ensures
        r@ == v@,
{
    let mut out: Vec<String> = Vec::new();
    let mut i: usize = 0;
    while i < v.len()
        invariant
            i <= v.len(),
            out@ =~= v@.take(i as int),
        decreases v.len() - i,
    {
        out.push(v[i].clone());
        i += 1;
    }
    proof {
        assert(out@ =~= v@);
    }
    out
}

impl Clone for Arg {
    fn clone(&self) -> (r: Self)
        ensures
            r@ == self@,
    {
        match self {
            Arg::Path(segs) => Arg::Path(clone_strings(segs)),
            Arg::Lit(l) => Arg::Lit(l.clone()),
            Arg::Assign(n, l) => Arg::Assign(n.clone(), l.clone()),
            Arg::AssignOther(n) => Arg::AssignOther(n.clone()),
            Arg::Other => Arg::Other,
        }
    }
}

pub(crate) fn clone_args(v: &Vec<Arg>) -> (r: Vec<Arg>)
    ensures
        r.deep_view() == v.deep_view(),
{
    let mut out: Vec<Arg> = Vec::new();
    let mut i: usize = 0;
    while i < v.len()
        invariant
            i <= v.len(),
            out@.len() == i as int,
            forall|k: int| 0 <= k < i as int ==> out@[k]@ == v@[k]@,
        decreases v.len() - i,
    {
        out.push(v[i].clone());
        i += 1;
    }
    proof {
        assert forall|k: int| 0 <= k < v@.len() implies out.deep_view()[k]
            == v.deep_view()[k] by {
            assert(out@[k]@ == v@[k]@);
        }
        assert(out.deep_view() =~= v.deep_view());
    }
    out
}

pub(crate) proof fn lemma_deep_view_remove(v: Seq<ArgView>, w: Seq<ArgView>, i: int)
    requires
        0 <= i < v.len(),
        w.len() == v.len() - 1,
        forall|k: int| 0 <= k < w.len() ==> w[k] == v.remove(i)[k],
    ensures
        w == v.remove(i),
{
    assert(w =~= v.remove(i));
}

/// One annotation: its name and its argument list.
#[derive(Debug)]
pub struct Attr {
    pub name: String,
    pub args: Vec<Arg>,
}

/// Mathematical model of an [`Attr`].
pub struct AttrView {
    pub name: Seq<char>,
    pub args: Seq<ArgView>,
}

impl View for Attr {
    type V = AttrView;

    open spec fn view(&self) -> AttrView {
        AttrView { name: self.name@, args: self.args.deep_view() }
    }
}

impl DeepView for Attr {
    type V = AttrView;

    open spec fn deep_view(&self) -> AttrView {
        self.view()
    }
}

// ---------------------------------------------------------------------------
// Errors
// ---------------------------------------------------------------------------
/// A structurally matching argument whose value is not a literal of the
/// expected kind; carries the offending argument.
#[derive(Debug)]
pub struct GrammarError {
    pub arg: Arg,
}

impl View for GrammarError {
    type V = ArgView;

    open spec fn view(&self) -> ArgView {
        self.arg@
    }
}

/// A violation of the descriptor rules: wrong cardinality, a missing role,
/// an argument that fits no pattern.
#[derive(Debug)]
pub enum DescriptorError {
    /// a grammar-level fault inside an argument's value
    Grammar(GrammarError),
    /// more than one `request` annotation on the same item
    DuplicateAttribute,
    /// no `request` annotation where one is mandatory
    MissingAttribute,
    /// the annotation ended before a mandatory argument
    MissingArgument,
    /// an argument that does not fit the shape its position requires
    BadArgument(Arg),
    /// an argument that no pattern consumed
    Unexpected(Arg),
    /// a field carrying the annotation but no role; carries the field name
    MissingRole(String),
}

/// Mathematical model of a [`DescriptorError`].
pub enum DescriptorErrorView {
    Grammar(ArgView),
    DuplicateAttribute,
    MissingAttribute,
    MissingArgument,
    BadArgument(ArgView),
    Unexpected(ArgView),
    MissingRole(Seq<char>),
}

impl View for DescriptorError {
    type V = DescriptorErrorView;

    open spec fn view(&self) -> DescriptorErrorView {
        match self {
            DescriptorError::Grammar(e) => DescriptorErrorView::Grammar(e@),
            DescriptorError::DuplicateAttribute => DescriptorErrorView::DuplicateAttribute,
            DescriptorError::MissingAttribute => DescriptorErrorView::MissingAttribute,
            DescriptorError::MissingArgument => DescriptorErrorView::MissingArgument,
            DescriptorError::BadArgument(a) => DescriptorErrorView::BadArgument(a@),
            DescriptorError::Unexpected(a) => DescriptorErrorView::Unexpected(a@),
            DescriptorError::MissingRole(f) => DescriptorErrorView::MissingRole(f@),
        }
    }
}

// ---------------------------------------------------------------------------
// Finding the one `request` annotation
// ---------------------------------------------------------------------------
/// Whether an annotation is a `request` annotation.
pub open spec fn is_request_attr(a: AttrView) -> bool {
    a.name == "request"@
}

/// The first `request` annotation at or after position `i`.
pub open spec fn spec_find_request_from(attrs: Seq<AttrView>, i: int) -> Option<int>
    decreases attrs.len() - i,
{
    if i < 0 || i >= attrs.len() {
        None
    } else if is_request_attr(attrs[i]) {
        Some(i)
    } else {
        spec_find_request_from(attrs, i + 1)
    }
}

/// What [`get_request_attr`] returns: the position of the one `request`
/// annotation, `None` when there is none, an error when there are two.
pub open spec fn spec_get_request_attr(attrs: Seq<AttrView>) -> Result<Option<int>, ()> {
    match spec_find_request_from(attrs, 0) {
        None => Ok(None),
        Some(j) => match spec_find_request_from(attrs, j + 1) {
            None => Ok(Some(j)),
            Some(_) => Err(()),
        },
    }
}

fn find_request_from(attrs: &Vec<Attr>, start: usize) -> (r: Option<usize>)
    requires
        start <= attrs.len(),
    ensures
        match r {
            Some(j) => start <= j < attrs.len() && spec_find_request_from(
                attrs.deep_view(),
                start as int,
            ) == Some(j as int),
            None => spec_find_request_from(attrs.deep_view(), start as int) is None,
        },
{
    let ghost v = attrs.deep_view();
    let mut i: usize = start;
    while i < attrs.len()
        invariant
            start <= i <= attrs.len(),
            v == attrs.deep_view(),
            spec_find_request_from(v, start as int) == spec_find_request_from(v, i as int),
        decreases attrs.len() - i,
    {
        proof {
            assert(v[i as int] == attrs[i as int].deep_view());
        }
        if str_eq(attrs[i].name.as_str(), "request") {
            return Some(i);
        }
        i += 1;
    }
    None
}

/// Singles out the `request` annotation in an annotation list: at most one
/// may be present; a second one is a [`DescriptorError::DuplicateAttribute`].
pub fn get_request_attr(attrs: &Vec<Attr>) -> (r: Result<Option<&Attr>, DescriptorError>)
    ensures
        match r {
            Ok(None) => spec_get_request_attr(attrs.deep_view()) == Ok::<Option<int>, ()>(None),
            Ok(Some(a)) => ({
                let f = spec_get_request_attr(attrs.deep_view());
                &&& f is Ok
                &&& f->Ok_0 is Some
                &&& 0 <= f->Ok_0->Some_0 < attrs.len()
                &&& a@ == attrs.deep_view()[f->Ok_0->Some_0]
            }),
            Err(e) => spec_get_request_attr(attrs.deep_view()) is Err && e@
                == DescriptorErrorView::DuplicateAttribute,
        },
{
    match find_request_from(attrs, 0) {
        None => Ok(None),
        Some(j) => {
            match find_request_from(attrs, j + 1) {
                None => Ok(Some(&attrs[j])),
                Some(_) => Err(DescriptorError::DuplicateAttribute),
            }
        },
    }
}

// ---------------------------------------------------------------------------
// The flag matcher: a bare identifier equal to the name, or `name = <bool>`.
// ---------------------------------------------------------------------------
/// Whether an argument is the bare identifier `name`.
pub open spec fn arg_is_ident(a: ArgView, name: Seq<char>) -> bool {
    match a {
        ArgView::Path(segs) => segs.len() == 1 && segs[0] == name,
        _ => false,
    }
}

/// What the flag matcher yields on one argument, when it matches.
pub open spec fn flag_match(a: ArgView, name: Seq<char>) -> Option<bool> {
    if arg_is_ident(a, name) {
        Some(true)
    } else {
        match a {
            ArgView::Assign(n, ArgLitView::Bool(b)) => if n == name {
                Some(b)
            } else {
                None
            },
            _ => None,
        }
    }
}

/// Whether an argument names `name` but carries a value of the wrong kind,
/// which stops the scan with a [`GrammarError`].
pub open spec fn flag_fault(a: ArgView, name: Seq<char>) -> bool {
    match a {
        ArgView::Assign(n, l) => n == name && !(l is Bool),
        ArgView::AssignOther(n) => n == name,
        _ => false,
    }
}

/// The left-to-right scan of the flag matcher, starting at position `i`:
/// the first match (value and position) wins; a fault met first stops it.
pub open spec fn spec_scan_flag_from(args: Seq<ArgView>, name: Seq<char>, i: int) -> Result<
    Option<(bool, int)>,
    int,
>
    decreases args.len() - i,
{
    if i < 0 || i >= args.len() {
        Ok(None)
    } else if flag_match(args[i], name) is Some {
        Ok(Some((flag_match(args[i], name)->Some_0, i)))
    } else if flag_fault(args[i], name) {
        Err(i)
    } else {
        spec_scan_flag_from(args, name, i + 1)
    }
}

/// What [`parse_bool_var`] returns on `args` and `name`.
pub open spec fn spec_scan_flag(args: Seq<ArgView>, name: Seq<char>) -> Result<
    Option<(bool, int)>,
    int,
> {
    spec_scan_flag_from(args, name, 0)
}

/// Relates the exec result of [`parse_bool_var`] to its specification.
pub open spec fn flag_scan_matches(
    r: Result<Option<(bool, usize)>, GrammarError>,
    args: Seq<ArgView>,
    name: Seq<char>,
) -> bool {
    match (r, spec_scan_flag(args, name)) {
        (Ok(None), Ok(None)) => true,
        (Ok(Some((b, i))), Ok(Some((sb, si)))) => b == sb && i as int == si && 0 <= si
            < args.len(),
        (Err(e), Err(j)) => 0 <= j < args.len() && e@ == args[j],
        _ => false,
    }
}

/// The flag matcher: scans `args` left to right for the bare identifier
/// `name` (yielding `true`) or `name = <bool literal>` (yielding the
/// literal); an argument naming `name` with any other value is an error.
/// Returns the matched value together with its position, so that the caller
/// can remove the consumed argument from the pool.
pub fn parse_bool_var(args: &Vec<Arg>, name: &str) -> (r: Result<
    Option<(bool, usize)>,
    GrammarError,
>)
    ensures
        flag_scan_matches(r, args.deep_view(), name@),
{
    let ghost v = args.deep_view();
    let mut i: usize = 0;
    while i < args.len()
        invariant
            i <= args.len(),
            v == args.deep_view(),
            spec_scan_flag_from(v, name@, 0) == spec_scan_flag_from(v, name@, i as int),
        decreases args.len() - i,
    {
        proof {
            assert(v[i as int] == args[i as int].deep_view());
        }
        match &args[i] {
            Arg::Path(segs) => {
                if segs.len() == 1 && str_eq(segs[0].as_str(), name) {
                    proof {
                        assert(arg_is_ident(v[i as int], name@));
                    }
                    return Ok(Some((true, i)));
                }
            },
            Arg::Assign(n, lit) => {
                if str_eq(n.as_str(), name) {
                    match lit {
                        ArgLit::Bool(b) => {
                            return Ok(Some((*b, i)));
                        },
                        _ => {
                            return Err(GrammarError { arg: args[i].clone() });
                        },
                    }
                }
            },
            Arg::AssignOther(n) => {
                if str_eq(n.as_str(), name) {
                    return Err(GrammarError { arg: args[i].clone() });
                }
            },
            _ => {},
        }
        proof {
            assert(flag_match(v[i as int], name@) is None);
            assert(!flag_fault(v[i as int], name@));
        }
        i += 1;
    }
    Ok(None)
}

// ---------------------------------------------------------------------------
// The string matcher: only `name = <string literal>`.
// ---------------------------------------------------------------------------
/// What the string matcher yields on one argument, when it matches.
pub open spec fn string_match(a: ArgView, name: Seq<char>) -> Option<Seq<char>> {
    match a {
        ArgView::Assign(n, ArgLitView::Str(s)) => if n == name {
            Some(s)
        } else {
            None
        },
        _ => None,
    }
}

/// Whether an argument names `name` but carries no string literal.
pub open spec fn string_fault(a: ArgView, name: Seq<char>) -> bool {
    match a {
        ArgView::Assign(n, l) => n == name && !(l is Str),
        ArgView::AssignOther(n) => n == name,
        _ => false,
    }
}

/// The left-to-right scan of the string matcher, starting at position `i`.
pub open spec fn spec_scan_string_from(args: Seq<ArgView>, name: Seq<char>, i: int) -> Result<
    Option<(Seq<char>, int)>,
    int,
>
    decreases args.len() - i,
{
    if i < 0 || i >= args.len() {
        Ok(None)
    } else if string_match(args[i], name) is Some {
        Ok(Some((string_match(args[i], name)->Some_0, i)))
    } else if string_fault(args[i], name) {
        Err(i)
    } else {
        spec_scan_string_from(args, name, i + 1)
    }
}

/// What [`parse_string_var`] returns on `args` and `name`.
pub open spec fn spec_scan_string(args: Seq<ArgView>, name: Seq<char>) -> Result<
    Option<(Seq<char>, int)>,
    int,
> {
    spec_scan_string_from(args, name, 0)
}

/// Relates the exec result of [`parse_string_var`] to its specification.
pub open spec fn string_scan_matches(
    r: Result<Option<(String, usize)>, GrammarError>,
    args: Seq<ArgView>,
    name: Seq<char>,
) -> bool {
    match (r, spec_scan_string(args, name)) {
        (Ok(None), Ok(None)) => true,
        (Ok(Some((s, i))), Ok(Some((ss, si)))) => s@ == ss && i as int == si && 0 <= si
            < args.len(),
        (Err(e), Err(j)) => 0 <= j < args.len() && e@ == args[j],
        _ => false,
    }
}

/// The string matcher: scans `args` left to right for
/// `name = <string literal>`; an argument naming `name` with any other
/// value is an error.
pub fn parse_string_var(args: &Vec<Arg>, name: &str) -> (r: Result<
    Option<(String, usize)>,
    GrammarError,
>)
    ensures
        string_scan_matches(r, args.deep_view(), name@),
{
    let ghost v = args.deep_view();
    let mut i: usize = 0;
    while i < args.len()
        invariant
            i <= args.len(),
            v == args.deep_view(),
            spec_scan_string_from(v, name@, 0) == spec_scan_string_from(v, name@, i as int),
        decreases args.len() - i,
    {
        proof {
            assert(v[i as int] == args[i as int].deep_view());
        }
        match &args[i] {
            Arg::Assign(n, lit) => {
                if str_eq(n.as_str(), name) {
                    match lit {
                        ArgLit::Str(s) => {
                            return Ok(Some((s.clone(), i)));
                        },
                        _ => {
                            return Err(GrammarError { arg: args[i].clone() });
                        },
                    }
                }
            },
            Arg::AssignOther(n) => {
                if str_eq(n.as_str(), name) {
                    return Err(GrammarError { arg: args[i].clone() });
                }
            },
            _ => {},
        }
        proof {
            assert(string_match(v[i as int], name@) is None);
            assert(!string_fault(v[i as int], name@));
        }
        i += 1;
    }
    Ok(None)
}

// ---------------------------------------------------------------------------
// The flag-or-string matcher: a bare identifier (`(true, None)`),
// `name = <bool>` (`(value, None)`), `name = <string>` (`(true, Some(..))`),
// or a bare string literal (`(true, Some(..))`, whatever the name).
// ---------------------------------------------------------------------------
/// What the flag-or-string matcher yields on one argument, when it matches.
pub open spec fn flag_or_string_match(a: ArgView, name: Seq<char>) -> Option<
    (bool, Option<Seq<char>>),
> {
    if arg_is_ident(a, name) {
        Some((true, None))
    } else {
        match a {
            ArgView::Assign(n, ArgLitView::Bool(b)) => if n == name {
                Some((b, None))
            } else {
                None
            },
            ArgView::Assign(n, ArgLitView::Str(s)) => if n == name {
                Some((true, Some(s)))
            } else {
                None
            },
            ArgView::Lit(ArgLitView::Str(s)) => Some((true, Some(s))),
            _ => None,
        }
    }
}

/// Whether an argument stops the flag-or-string scan: a value of the wrong
/// kind after `name =`, or a bare literal that is no string.
pub open spec fn flag_or_string_fault(a: ArgView, name: Seq<char>) -> bool {
    match a {
        ArgView::Assign(n, l) => n == name && !(l is Bool) && !(l is Str),
        ArgView::AssignOther(n) => n == name,
        ArgView::Lit(l) => !(l is Str),
        _ => false,
    }
}

/// The left-to-right scan of the flag-or-string matcher, from position `i`.
pub open spec fn spec_scan_flag_or_string_from(
    args: Seq<ArgView>,
    name: Seq<char>,
    i: int,
) -> Result<Option<(bool, Option<Seq<char>>, int)>, int>
    decreases args.len() - i,
{
    if i < 0 || i >= args.len() {
        Ok(None)
    } else if flag_or_string_match(args[i], name) is Some {
        let m = flag_or_string_match(args[i], name)->Some_0;
        Ok(Some((m.0, m.1, i)))
    } else if flag_or_string_fault(args[i], name) {
        Err(i)
    } else {
        spec_scan_flag_or_string_from(args, name, i + 1)
    }
}

/// What [`parse_bool_or_string_var`] returns on `args` and `name`.
pub open spec fn spec_scan_flag_or_string(args: Seq<ArgView>, name: Seq<char>) -> Result<
    Option<(bool, Option<Seq<char>>, int)>,
    int,
> {
    spec_scan_flag_or_string_from(args, name, 0)
}

/// Relates the exec result of [`parse_bool_or_string_var`] to its
/// specification.
pub open spec fn flag_or_string_scan_matches(
    r: Result<Option<(bool, Option<String>, usize)>, GrammarError>,
    args: Seq<ArgView>,
    name: Seq<char>,
) -> bool {
    match (r, spec_scan_flag_or_string(args, name)) {
        (Ok(None), Ok(None)) => true,
        (Ok(Some((b, s, i))), Ok(Some((sb, ss, si)))) => b == sb && s.deep_view() == ss && i as int
            == si && 0 <= si < args.len(),
        (Err(e), Err(j)) => 0 <= j < args.len() && e@ == args[j],
        _ => false,
    }
}

/// The flag-or-string matcher, used for role arguments: accepts the bare
/// identifier `name`, `name = <bool literal>`, `name = <string literal>`
/// (the string being an inline rename), or a bare string literal.  A bare
/// literal of any other kind, or a `name = <..>` of the wrong kind, is an
/// error.
pub fn parse_bool_or_string_var(args: &Vec<Arg>, name: &str) -> (r: Result<
    Option<(bool, Option<String>, usize)>,
    GrammarError,
>)
    ensures
        flag_or_string_scan_matches(r, args.deep_view(), name@),
{
    let ghost v = args.deep_view();
    let mut i: usize = 0;
    while i < args.len()
        invariant
            i <= args.len(),
            v == args.deep_view(),
            spec_scan_flag_or_string_from(v, name@, 0) == spec_scan_flag_or_string_from(
                v,
                name@,
                i as int,
            ),
        decreases args.len() - i,
    {
        proof {
            assert(v[i as int] == args[i as int].deep_view());
        }
        match &args[i] {
            Arg::Path(segs) => {
                if segs.len() == 1 && str_eq(segs[0].as_str(), name) {
                    proof {
                        assert(arg_is_ident(v[i as int], name@));
                    }
                    return Ok(Some((true, None, i)));
                }
            },
            Arg::Assign(n, lit) => {
                if str_eq(n.as_str(), name) {
                    match lit {
                        ArgLit::Bool(b) => {
                            return Ok(Some((*b, None, i)));
                        },
                        ArgLit::Str(s) => {
                            return Ok(Some((true, Some(s.clone()), i)));
                        },
                        ArgLit::Other => {
                            return Err(GrammarError { arg: args[i].clone() });
                        },
                    }
                }
            },
            Arg::AssignOther(n) => {
                if str_eq(n.as_str(), name) {
                    return Err(GrammarError { arg: args[i].clone() });
                }
            },
            Arg::Lit(lit) => {
                match lit {
                    ArgLit::Str(s) => {
                        return Ok(Some((true, Some(s.clone()), i)));
                    },
                    _ => {
                        return Err(GrammarError { arg: args[i].clone() });
                    },
                }
            },
            Arg::Other => {},
        }
        proof {
            assert(flag_or_string_match(v[i as int], name@) is None);
            assert(!flag_or_string_fault(v[i as int], name@));
        }
        i += 1;
    }
    Ok(None)
}

// ---------------------------------------------------------------------------
// Single consumption of matched arguments
// ---------------------------------------------------------------------------
/// Whether an argument mentions `name` at all: as a bare identifier or on
/// the left of an `=`.  An argument that does not is invisible to the flag
/// and string matchers for that name.
pub open spec fn mentions_name(a: ArgView, name: Seq<char>) -> bool {
    match a {
        ArgView::Path(segs) => segs.len() == 1 && segs[0] == name,
        ArgView::Assign(n, _) => n == name,
        ArgView::AssignOther(n) => n == name,
        _ => false,
    }
}

proof fn lemma_scan_flag_found(args: Seq<ArgView>, name: Seq<char>, i0: int, b: bool, i: int)
    requires
        spec_scan_flag_from(args, name, i0) == Ok::<_, int>(Some((b, i))),
    ensures
        i0 <= i < args.len(),
        flag_match(args[i], name) == Some(b),
    decreases args.len() - i0,
{
    if i0 < 0 || i0 >= args.len() {
    } else if flag_match(args[i0], name) is Some {
    } else if flag_fault(args[i0], name) {
    } else {
        lemma_scan_flag_found(args, name, i0 + 1, b, i);
    }
}

proof fn lemma_scan_flag_unmentioned(args: Seq<ArgView>, name: Seq<char>, i0: int)
    requires
        forall|j: int| i0 <= j < args.len() ==> !mentions_name(#[trigger] args[j], name),
    ensures
        spec_scan_flag_from(args, name, i0) == Ok::<Option<(bool, int)>, int>(None),
    decreases args.len() - i0,
{
    if i0 < 0 || i0 >= args.len() {
    } else {
        assert(!mentions_name(args[i0], name));
        lemma_scan_flag_unmentioned(args, name, i0 + 1);
    }
}

proof fn lemma_scan_string_found(
    args: Seq<ArgView>,
    name: Seq<char>,
    i0: int,
    s: Seq<char>,
    i: int,
)
    requires
        spec_scan_string_from(args, name, i0) == Ok::<_, int>(Some((s, i))),
    ensures
        i0 <= i < args.len(),
        string_match(args[i], name) == Some(s),
    decreases args.len() - i0,
{
    if i0 < 0 || i0 >= args.len() {
    } else if string_match(args[i0], name) is Some {
    } else if string_fault(args[i0], name) {
    } else {
        lemma_scan_string_found(args, name, i0 + 1, s, i);
    }
}

proof fn lemma_scan_string_unmentioned(args: Seq<ArgView>, name: Seq<char>, i0: int)
    requires
        forall|j: int| i0 <= j < args.len() ==> !mentions_name(#[trigger] args[j], name),
    ensures
        spec_scan_string_from(args, name, i0) == Ok::<Option<(Seq<char>, int)>, int>(None),
    decreases args.len() - i0,
{
    if i0 < 0 || i0 >= args.len() {
    } else {
        assert(!mentions_name(args[i0], name));
        lemma_scan_string_unmentioned(args, name, i0 + 1);
    }
}

proof fn lemma_removed_unmentioned(args: Seq<ArgView>, name: Seq<char>, i: int)
    requires
        0 <= i < args.len(),
        forall|j: int| 0 <= j < args.len() && j != i ==> !mentions_name(#[trigger] args[j], name),
    ensures
        forall|j: int|
            0 <= j < args.remove(i).len() ==> !mentions_name(#[trigger] args.remove(i)[j], name),
{
    assert forall|j: int| 0 <= j < args.remove(i).len() implies !mentions_name(
        #[trigger] args.remove(i)[j],
        name,
    ) by {
        if j < i {
            assert(args.remove(i)[j] == args[j]);
        } else {
            assert(args.remove(i)[j] == args[j + 1]);
        }
    }
}

/// An argument matched by the flag matcher is consumed exactly once: when
/// `name` is mentioned by no other argument, removing the matched argument
/// leaves a pool on which a second pass — through the flag matcher or the
/// string matcher — finds nothing for `name`.
pub proof fn lemma_flag_match_consumed_once(args: Seq<ArgView>, name: Seq<char>, b: bool, i: int)
    requires
        spec_scan_flag(args, name) == Ok::<_, int>(Some((b, i))),
        forall|j: int| 0 <= j < args.len() && j != i ==> !mentions_name(#[trigger] args[j], name),
    ensures
        0 <= i < args.len(),
        spec_scan_flag(args.remove(i), name) == Ok::<Option<(bool, int)>, int>(None),
        spec_scan_string(args.remove(i), name) == Ok::<Option<(Seq<char>, int)>, int>(None),
{
    lemma_scan_flag_found(args, name, 0, b, i);
    lemma_removed_unmentioned(args, name, i);
    lemma_scan_flag_unmentioned(args.remove(i), name, 0);
    lemma_scan_string_unmentioned(args.remove(i), name, 0);
}

proof fn lemma_scan_fos_found(
    args: Seq<ArgView>,
    name: Seq<char>,
    i0: int,
    b: bool,
    rn: Option<Seq<char>>,
    i: int,
)
    requires
        spec_scan_flag_or_string_from(args, name, i0) == Ok::<_, int>(Some((b, rn, i))),
    ensures
        i0 <= i < args.len(),
        flag_or_string_match(args[i], name) == Some((b, rn)),
    decreases args.len() - i0,
{
    if i0 < 0 || i0 >= args.len() {
    } else if flag_or_string_match(args[i0], name) is Some {
    } else if flag_or_string_fault(args[i0], name) {
    } else {
        lemma_scan_fos_found(args, name, i0 + 1, b, rn, i);
    }
}

proof fn lemma_scan_fos_invisible(args: Seq<ArgView>, name: Seq<char>, i0: int)
    requires
        forall|j: int|
            i0 <= j < args.len() ==> (!mentions_name(#[trigger] args[j], name) && !(args[j]
                is Lit)),
    ensures
        spec_scan_flag_or_string_from(args, name, i0) == Ok::<
            Option<(bool, Option<Seq<char>>, int)>,
            int,
        >(None),
    decreases args.len() - i0,
{
    if i0 < 0 || i0 >= args.len() {
    } else {
        assert(!mentions_name(args[i0], name) && !(args[i0] is Lit));
        lemma_scan_fos_invisible(args, name, i0 + 1);
    }
}

/// An argument matched by the flag-or-string (role) matcher is consumed
/// exactly once: when `name` is mentioned by no other argument, removing
/// the matched argument leaves a pool on which a second pass through the
/// flag matcher or the string matcher finds nothing for `name`; and when
/// moreover no bare literal is left — a bare string literal matches the
/// role matcher whatever the name — the role matcher itself finds nothing
/// either.
pub proof fn lemma_role_match_consumed_once(
    args: Seq<ArgView>,
    name: Seq<char>,
    b: bool,
    rn: Option<Seq<char>>,
    i: int,
)
    requires
        spec_scan_flag_or_string(args, name) == Ok::<_, int>(Some((b, rn, i))),
        forall|j: int| 0 <= j < args.len() && j != i ==> !mentions_name(#[trigger] args[j], name),
    ensures
        0 <= i < args.len(),
        spec_scan_flag(args.remove(i), name) == Ok::<Option<(bool, int)>, int>(None),
        spec_scan_string(args.remove(i), name) == Ok::<Option<(Seq<char>, int)>, int>(None),
        (forall|j: int| 0 <= j < args.len() && j != i ==> !(#[trigger] args[j] is Lit))
            ==> spec_scan_flag_or_string(args.remove(i), name) == Ok::<
            Option<(bool, Option<Seq<char>>, int)>,
            int,
        >(None),
{
    lemma_scan_fos_found(args, name, 0, b, rn, i);
    lemma_removed_unmentioned(args, name, i);
    lemma_scan_flag_unmentioned(args.remove(i), name, 0);
    lemma_scan_string_unmentioned(args.remove(i), name, 0);
    if forall|j: int| 0 <= j < args.len() && j != i ==> !(#[trigger] args[j] is Lit) {
        assert forall|k: int| 0 <= k < args.remove(i).len() implies (!mentions_name(
            #[trigger] args.remove(i)[k],
            name,
        ) && !(args.remove(i)[k] is Lit)) by {
            if k < i {
                assert(args.remove(i)[k] == args[k]);
            } else {
                assert(args.remove(i)[k] == args[k + 1]);
            }
        }
        lemma_scan_fos_invisible(args.remove(i), name, 0);
    }
}

/// An argument matched by the string matcher is consumed exactly once: when
/// `name` is mentioned by no other argument, removing the matched argument
/// leaves a pool on which a second pass — through the string matcher or the
/// flag matcher — finds nothing for `name`.
pub proof fn lemma_string_match_consumed_once(
    args: Seq<ArgView>,
    name: Seq<char>,
    s: Seq<char>,
    i: int,
)
    requires
        spec_scan_string(args, name) == Ok::<_, int>(Some((s, i))),
        forall|j: int| 0 <= j < args.len() && j != i ==> !mentions_name(#[trigger] args[j], name),
    ensures
        0 <= i < args.len(),
        spec_scan_string(args.remove(i), name) == Ok::<Option<(Seq<char>, int)>, int>(None),
        spec_scan_flag(args.remove(i), name) == Ok::<Option<(bool, int)>, int>(None),
{
    lemma_scan_string_found(args, name, 0, s, i);
    lemma_removed_unmentioned(args, name, i);
    lemma_scan_flag_unmentioned(args.remove(i), name, 0);
    lemma_scan_string_unmentioned(args.remove(i), name, 0);
}

} // verus!
