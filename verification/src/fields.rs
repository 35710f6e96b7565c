use vstd::prelude::*;

use crate::grammar::{
    get_request_attr, lemma_deep_view_remove, parse_bool_or_string_var, parse_string_var,
    spec_get_request_attr, spec_scan_flag_or_string, spec_scan_string, Arg, ArgView, Attr,
    AttrView, DescriptorError, DescriptorErrorView, GrammarError,
};

verus! {

/// The role of an annotated field in the request.
#[derive(Debug, Clone, Copy, PartialEq, Eq, Structural)]
pub enum VariableMode {
    /// the field becomes a request header
    Header,
    /// the field fills a `:name` placeholder of the URL template
    Path,
    /// the field becomes a query parameter
    Query,
}

/// The field-level descriptor of one annotated field: its source name, its
/// role, an optional wire-name override, an optional custom serializer
/// reference, and an optional prefix for the serialized value.
#[derive(Debug)]
pub struct FieldVariable {
    pub field: String,
    pub with: Option<String>,
    pub mode: Option<VariableMode>,
    pub rename: Option<String>,
    pub serialize_with: Option<String>,
}

/// Mathematical model of a [`FieldVariable`].
pub struct FieldVariableView {
    pub field: Seq<char>,
    pub with: Option<Seq<char>>,
    pub mode: Option<VariableMode>,
    pub rename: Option<Seq<char>>,
    pub serialize_with: Option<Seq<char>>,
}

impl View for FieldVariable {
    type V = FieldVariableView;

    open spec fn view(&self) -> FieldVariableView {
        FieldVariableView {
            field: self.field@,
            with: self.with.deep_view(),
            mode: self.mode,
            rename: self.rename.deep_view(),
            serialize_with: self.serialize_with.deep_view(),
        }
    }
}

impl DeepView for FieldVariable {
    type V = FieldVariableView;

    open spec fn deep_view(&self) -> FieldVariableView {
        self.view()
    }
}

impl FieldVariable {
    /// A descriptor for `field` with no role and no options yet.
    pub fn new(field: String) -> (r: FieldVariable)
        ensures
            r@ == (FieldVariableView {
                field: field@,
                with: None,
                mode: None,
                rename: None,
                serialize_with: None,
            }),
    {
        FieldVariable { field, with: None, mode: None, rename: None, serialize_with: None }
    }
}

/// One field of the annotated struct: its name and its annotations.
#[derive(Debug)]
pub struct FieldDef {
    pub name: String,
    pub attrs: Vec<Attr>,
}

/// Mathematical model of a [`FieldDef`].
pub struct FieldDefView {
    pub name: Seq<char>,
    pub attrs: Seq<AttrView>,
}

impl View for FieldDef {
    type V = FieldDefView;

    open spec fn view(&self) -> FieldDefView {
        FieldDefView { name: self.name@, attrs: self.attrs.deep_view() }
    }
}

impl DeepView for FieldDef {
    type V = FieldDefView;

    open spec fn deep_view(&self) -> FieldDefView {
        self.view()
    }
}

/// An ordered list of field descriptors sharing one role.
#[derive(Debug)]
pub struct FieldsVariable(pub Vec<FieldVariable>);

impl View for FieldsVariable {
    type V = Seq<FieldVariableView>;

    open spec fn view(&self) -> Seq<FieldVariableView> {
        self.0.deep_view()
    }
}

impl FieldsVariable {
    /// How many fields carry this role.
    pub fn len(&self) -> (r: usize)
        ensures
            r == self@.len(),
    {
        self.0.len()
    }
}

// ---------------------------------------------------------------------------
// Parsing one field's annotation arguments
// ---------------------------------------------------------------------------
/// What parsing one field's `request` arguments yields: the role is
/// resolved by the flag-or-string matcher, tried for `header`, `path`,
/// `query` in that order (an inline string is a rename); then the optional
/// `rename`, `serialize_with` and `with` named strings; each match consumes
/// its argument; anything left is an error, and so is a missing role.
pub open spec fn spec_field_args(name: Seq<char>, args: Seq<ArgView>) -> Result<
    FieldVariableView,
    DescriptorErrorView,
> {
    match spec_role(args) {
        Err(a) => Err(DescriptorErrorView::Grammar(a)),
        Ok((mode, rename0, rest)) => match spec_take_string(rest, "rename"@) {
            Err(a) => Err(DescriptorErrorView::Grammar(a)),
            Ok((rn, rest2)) => match spec_take_string(rest2, "serialize_with"@) {
                Err(a) => Err(DescriptorErrorView::Grammar(a)),
                Ok((sw, rest3)) => match spec_take_string(rest3, "with"@) {
                    Err(a) => Err(DescriptorErrorView::Grammar(a)),
                    Ok((wi, rest4)) => {
                        let rename = if rn is Some {
                            rn
                        } else {
                            rename0
                        };
                        if rest4.len() > 0 {
                            Err(DescriptorErrorView::Unexpected(rest4[0]))
                        } else if mode is None {
                            Err(DescriptorErrorView::MissingRole(name))
                        } else {
                            Ok(
                                FieldVariableView {
                                    field: name,
                                    with: wi,
                                    mode,
                                    rename,
                                    serialize_with: sw,
                                },
                            )
                        }
                    },
                },
            },
        },
    }
}

/// One named-string option taken out of the pool: the matched value, if
/// any, and the pool without the consumed argument; a fault yields the
/// offending argument.
pub open spec fn spec_take_string(args: Seq<ArgView>, name: Seq<char>) -> Result<
    (Option<Seq<char>>, Seq<ArgView>),
    ArgView,
> {
    match spec_scan_string(args, name) {
        Err(j) => Err(args[j]),
        Ok(Some((s, i))) => Ok((Some(s), args.remove(i))),
        Ok(None) => Ok((None, args)),
    }
}

/// The role resolution on one argument list: `header`, then `path`, then
/// `query`, each through the flag-or-string matcher; the first match wins
/// and its argument is removed.  Yields the role, the inline rename, and
/// the remaining arguments; a fault yields the offending argument.
pub open spec fn spec_role(args: Seq<ArgView>) -> Result<
    (Option<VariableMode>, Option<Seq<char>>, Seq<ArgView>),
    ArgView,
> {
    match spec_scan_flag_or_string(args, "header"@) {
        Err(j) => Err(args[j]),
        Ok(Some((_, rename, i))) => Ok((Some(VariableMode::Header), rename, args.remove(i))),
        Ok(None) => match spec_scan_flag_or_string(args, "path"@) {
            Err(j) => Err(args[j]),
            Ok(Some((_, rename, i))) => Ok((Some(VariableMode::Path), rename, args.remove(i))),
            Ok(None) => match spec_scan_flag_or_string(args, "query"@) {
                Err(j) => Err(args[j]),
                Ok(Some((_, rename, i))) => Ok(
                    (Some(VariableMode::Query), rename, args.remove(i)),
                ),
                Ok(None) => Ok((None, None, args)),
            },
        },
    }
}

/// What one field contributes: nothing when it has no `request` annotation,
/// its descriptor otherwise.
pub open spec fn spec_field_var(f: FieldDefView) -> Result<
    Option<FieldVariableView>,
    DescriptorErrorView,
> {
    match spec_get_request_attr(f.attrs) {
        Err(_) => Err(DescriptorErrorView::DuplicateAttribute),
        Ok(None) => Ok(None),
        Ok(Some(j)) => match spec_field_args(f.name, f.attrs[j].args) {
            Err(e) => Err(e),
            Ok(v) => Ok(Some(v)),
        },
    }
}

fn take_string_option(pool: Vec<Arg>, name: &str) -> (r: Result<
    (Option<String>, Vec<Arg>),
    GrammarError,
>)
    ensures
        match (r, spec_take_string(pool.deep_view(), name@)) {
            (Ok((s, rest)), Ok((ss, srest))) => s.deep_view() == ss && rest.deep_view() == srest,
            (Err(e), Err(sa)) => e@ == sa,
            _ => false,
        },
{
    let ghost dv = pool.deep_view();
    let mut pool = pool;
    match parse_string_var(&pool, name) {
        Err(e) => Err(e),
        Ok(Some((s, idx))) => {
            pool.remove(idx);
            proof {
                lemma_deep_view_remove(dv, pool.deep_view(), idx as int);
            }
            Ok((Some(s), pool))
        },
        Ok(None) => Ok((None, pool)),
    }
}

fn resolve_role(pool: Vec<Arg>) -> (r: Result<
    (Option<VariableMode>, Option<String>, Vec<Arg>),
    GrammarError,
>)
    ensures
        match (r, spec_role(pool.deep_view())) {
            (Ok((m, rn, rest)), Ok((sm, srn, srest))) => m == sm && rn.deep_view() == srn
                && rest.deep_view() == srest,
            (Err(e), Err(sa)) => e@ == sa,
            _ => false,
        },
{
    let ghost dv = pool.deep_view();
    let mut pool = pool;
    match parse_bool_or_string_var(&pool, "header") {
        Err(e) => {
            return Err(e);
        },
        Ok(Some((_flag, rename, idx))) => {
            pool.remove(idx);
            proof {
                lemma_deep_view_remove(dv, pool.deep_view(), idx as int);
            }
            return Ok((Some(VariableMode::Header), rename, pool));
        },
        Ok(None) => {},
    }
    match parse_bool_or_string_var(&pool, "path") {
        Err(e) => {
            return Err(e);
        },
        Ok(Some((_flag, rename, idx))) => {
            pool.remove(idx);
            proof {
                lemma_deep_view_remove(dv, pool.deep_view(), idx as int);
            }
            return Ok((Some(VariableMode::Path), rename, pool));
        },
        Ok(None) => {},
    }
    match parse_bool_or_string_var(&pool, "query") {
        Err(e) => {
            return Err(e);
        },
        Ok(Some((_flag, rename, idx))) => {
            pool.remove(idx);
            proof {
                lemma_deep_view_remove(dv, pool.deep_view(), idx as int);
            }
            return Ok((Some(VariableMode::Query), rename, pool));
        },
        Ok(None) => {},
    }
    Ok((None, None, pool))
}

fn field_var(f: &FieldDef) -> (r: Result<Option<FieldVariable>, DescriptorError>)
    ensures
        match (r, spec_field_var(f@)) {
            (Ok(None), Ok(None)) => true,
            (Ok(Some(v)), Ok(Some(sv))) => v@ == sv,
            (Err(e), Err(se)) => e@ == se,
            _ => false,
        },
{
    let attr = match get_request_attr(&f.attrs) {
        Err(e) => {
            return Err(e);
        },
        Ok(None) => {
            return Ok(None);
        },
        Ok(Some(a)) => a,
    };
    let pool = crate::grammar::clone_args(&attr.args);

    // the role: header, then path, then query
    let (mode, rename0, pool) = match resolve_role(pool) {
        Err(e) => {
            return Err(DescriptorError::Grammar(e));
        },
        Ok(t) => t,
    };

    // the named options: rename, serialize_with, with
    let (rn, pool) = match take_string_option(pool, "rename") {
        Err(e) => {
            return Err(DescriptorError::Grammar(e));
        },
        Ok(t) => t,
    };
    let (sw, pool) = match take_string_option(pool, "serialize_with") {
        Err(e) => {
            return Err(DescriptorError::Grammar(e));
        },
        Ok(t) => t,
    };
    let (wi, mut pool) = match take_string_option(pool, "with") {
        Err(e) => {
            return Err(DescriptorError::Grammar(e));
        },
        Ok(t) => t,
    };
    let rename = match rn {
        Some(s) => Some(s),
        None => rename0,
    };

    // nothing may be left, and the role is mandatory
    if pool.len() > 0 {
        let leftover = pool.remove(0);
        return Err(DescriptorError::Unexpected(leftover));
    }
    if mode.is_none() {
        return Err(DescriptorError::MissingRole(f.name.clone()));
    }
    Ok(
        Some(
            FieldVariable {
                field: f.name.clone(),
                with: wi,
                mode,
                rename,
                serialize_with: sw,
            },
        ),
    )
}

// ---------------------------------------------------------------------------
// Parsing a whole field list
// ---------------------------------------------------------------------------
/// Appends one parsed field descriptor to the list of its role.
pub open spec fn spec_fields_step(
    acc: (Seq<FieldVariableView>, Seq<FieldVariableView>, Seq<FieldVariableView>),
    fv: FieldVariableView,
) -> (Seq<FieldVariableView>, Seq<FieldVariableView>, Seq<FieldVariableView>) {
    match fv.mode {
        Some(VariableMode::Header) => (acc.0.push(fv), acc.1, acc.2),
        Some(VariableMode::Path) => (acc.0, acc.1.push(fv), acc.2),
        Some(VariableMode::Query) => (acc.0, acc.1, acc.2.push(fv)),
        None => acc,
    }
}

/// What parsing the fields from position `i` onwards adds to `acc`.
pub open spec fn spec_fields_parse_from(
    fields: Seq<FieldDefView>,
    i: int,
    acc: (Seq<FieldVariableView>, Seq<FieldVariableView>, Seq<FieldVariableView>),
) -> Result<
    (Seq<FieldVariableView>, Seq<FieldVariableView>, Seq<FieldVariableView>),
    DescriptorErrorView,
>
    decreases fields.len() - i,
{
    if i < 0 || i >= fields.len() {
        Ok(acc)
    } else {
        match spec_field_var(fields[i]) {
            Err(e) => Err(e),
            Ok(None) => spec_fields_parse_from(fields, i + 1, acc),
            Ok(Some(fv)) => spec_fields_parse_from(fields, i + 1, spec_fields_step(acc, fv)),
        }
    }
}

/// What [`parse`] yields on a field list: the three role lists (headers,
/// paths, queries), each in field declaration order.
pub open spec fn spec_fields_parse(fields: Seq<FieldDefView>) -> Result<
    (Seq<FieldVariableView>, Seq<FieldVariableView>, Seq<FieldVariableView>),
    DescriptorErrorView,
> {
    spec_fields_parse_from(
        fields,
        0,
        (Seq::<FieldVariableView>::empty(), Seq::<FieldVariableView>::empty(), Seq::<
            FieldVariableView,
        >::empty()),
    )
}

/// Relates the exec result of [`parse`] to its specification.
pub open spec fn fields_result_matches(
    r: Result<(FieldsVariable, FieldsVariable, FieldsVariable), DescriptorError>,
    fields: Seq<FieldDefView>,
) -> bool {
    match (r, spec_fields_parse(fields)) {
        (Ok((h, p, q)), Ok((sh, sp, sq))) => h@ == sh && p@ == sp && q@ == sq,
        (Err(e), Err(se)) => e@ == se,
        _ => false,
    }
}

/// Parses a struct's field list into the three role lists (headers, paths,
/// queries).  Fields without a `request` annotation are skipped; a field
/// with the annotation but no role fails the whole parse.
pub fn parse(fields: &Vec<FieldDef>) -> (r: Result<
    (FieldsVariable, FieldsVariable, FieldsVariable),
    DescriptorError,
>)
    ensures
        fields_result_matches(r, fields.deep_view()),
{
    let ghost fv = fields.deep_view();
    let mut headers: Vec<FieldVariable> = Vec::new();
    let mut paths: Vec<FieldVariable> = Vec::new();
    let mut queries: Vec<FieldVariable> = Vec::new();
    proof {
        assert(headers.deep_view() =~= Seq::<FieldVariableView>::empty());
        assert(paths.deep_view() =~= Seq::<FieldVariableView>::empty());
        assert(queries.deep_view() =~= Seq::<FieldVariableView>::empty());
    }
    let mut i: usize = 0;
    while i < fields.len()
        invariant
            i <= fields.len(),
            fv == fields.deep_view(),
            spec_fields_parse(fv) == spec_fields_parse_from(
                fv,
                i as int,
                (headers.deep_view(), paths.deep_view(), queries.deep_view()),
            ),
        decreases fields.len() - i,
    {
        proof {
            assert(fv[i as int] == fields[i as int].deep_view());
        }
        let ghost acc = (headers.deep_view(), paths.deep_view(), queries.deep_view());
        match field_var(&fields[i]) {
            Err(e) => {
                return Err(e);
            },
            Ok(None) => {},
            Ok(Some(var)) => {
                let ghost vv = var@;
                match var.mode {
                    Some(VariableMode::Header) => {
                        headers.push(var);
                        proof {
                            assert(headers.deep_view() =~= acc.0.push(vv));
                        }
                    },
                    Some(VariableMode::Path) => {
                        paths.push(var);
                        proof {
                            assert(paths.deep_view() =~= acc.1.push(vv));
                        }
                    },
                    Some(VariableMode::Query) => {
                        queries.push(var);
                        proof {
                            assert(queries.deep_view() =~= acc.2.push(vv));
                        }
                    },
                    None => {},
                }
            },
        }
        i += 1;
    }
    Ok((FieldsVariable(headers), FieldsVariable(paths), FieldsVariable(queries)))
}

} // verus!
