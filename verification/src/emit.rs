use vstd::prelude::*;
use vstd::string::StringExecFns;

use crate::fields::{FieldVariable, FieldVariableView};
use crate::strutil::str_eq;

verus! {

// ---------------------------------------------------------------------------
// Evaluating one field descriptor against the request's field values
//
// A request value is given to the evaluator as pairs of field name and
// serialized value: for each field, what its serializer — the default
// scalar conversion or the configured custom one — produced, `None`
// standing for an absent value.
// ---------------------------------------------------------------------------
/// The wire name of a field: its rename when one was given, else the field
/// name itself.
pub open spec fn spec_field_key(f: FieldVariableView) -> Seq<char> {
    match f.rename {
        Some(r) => r,
        None => f.field,
    }
}

/// The serialized value supplied for `name`: that of the first pair naming
/// it, or absent when no pair does.
pub open spec fn spec_value_of(
    values: Seq<(Seq<char>, Option<Seq<char>>)>,
    name: Seq<char>,
) -> Option<Seq<char>>
    decreases values.len(),
{
    if values.len() == 0 {
        None
    } else if values[0].0 == name {
        values[0].1
    } else {
        spec_value_of(values.drop_first(), name)
    }
}

/// The value prefix applied: a present value gets the field's `with`
/// prefix, an absent value stays absent.
pub open spec fn spec_apply_with(f: FieldVariableView, v: Option<Seq<char>>) -> Option<Seq<char>> {
    match v {
        Some(val) => match f.with {
            Some(w) => Some(w + val),
            None => Some(val),
        },
        None => None,
    }
}

/// What one field contributes: its wire name, and its prefixed value when
/// present.
pub open spec fn spec_eval_field(
    f: FieldVariableView,
    values: Seq<(Seq<char>, Option<Seq<char>>)>,
) -> (Seq<char>, Option<Seq<char>>) {
    (spec_field_key(f), spec_apply_with(f, spec_value_of(values, f.field)))
}

/// The wire name of a field.
pub fn field_key(f: &FieldVariable) -> (r: String)
    ensures
        r@ == spec_field_key(f@),
{
    match &f.rename {
        Some(r) => r.clone(),
        None => f.field.clone(),
    }
}

fn value_of(values: &Vec<(String, Option<String>)>, name: &str) -> (r: Option<String>)
    ensures
        r.deep_view() == spec_value_of(values.deep_view(), name@),
{
    let ghost vv = values.deep_view();
    let mut i: usize = 0;
    proof {
        assert(vv.skip(0) =~= vv);
    }
    while i < values.len()
        invariant
            i <= values.len(),
            vv == values.deep_view(),
            spec_value_of(vv, name@) == spec_value_of(vv.skip(i as int), name@),
        decreases values.len() - i,
    {
        proof {
            assert(vv[i as int] == values@[i as int].deep_view());
            assert(vv.skip(i as int)[0] == vv[i as int]);
            assert(vv.skip(i as int).drop_first() =~= vv.skip(i as int + 1));
        }
        if str_eq(values[i].0.as_str(), name) {
            return match &values[i].1 {
                Some(v) => Some(v.clone()),
                None => None,
            };
        }
        i += 1;
    }
    proof {
        assert(vv.skip(i as int).len() == 0);
    }
    None
}

/// Evaluates one field descriptor against the supplied values: the wire
/// name paired with the prefixed serialized value, absent values staying
/// absent.
pub fn eval_field(f: &FieldVariable, values: &Vec<(String, Option<String>)>) -> (r: (
    String,
    Option<String>,
))
    ensures
        (r.0@, r.1.deep_view()) == spec_eval_field(f@, values.deep_view()),
{
    let key = field_key(f);
    let value = match value_of(values, f.field.as_str()) {
        Some(val) => {
            match &f.with {
                Some(w) => {
                    let mut prefixed = w.clone();
                    prefixed.append(val.as_str());
                    Some(prefixed)
                },
                None => Some(val),
            }
        },
        None => None,
    };
    (key, value)
}

// ---------------------------------------------------------------------------
// Building the parameter lists
// ---------------------------------------------------------------------------
/// The pairs emitted for the fields from position `i` on: each field with a
/// present value contributes its wire name and prefixed value, in order;
/// fields whose value is absent are omitted.
pub open spec fn spec_build_pairs_from(
    fields: Seq<FieldVariableView>,
    values: Seq<(Seq<char>, Option<Seq<char>>)>,
    i: int,
) -> Seq<(Seq<char>, Seq<char>)>
    decreases fields.len() - i,
{
    if i < 0 || i >= fields.len() {
        Seq::empty()
    } else {
        let rest = spec_build_pairs_from(fields, values, i + 1);
        match spec_eval_field(fields[i], values).1 {
            Some(v) => seq![(spec_field_key(fields[i]), v)] + rest,
            None => rest,
        }
    }
}

/// What [`build_params`] returns when the field list is not empty.
pub open spec fn spec_build_pairs(
    fields: Seq<FieldVariableView>,
    values: Seq<(Seq<char>, Option<Seq<char>>)>,
) -> Seq<(Seq<char>, Seq<char>)> {
    spec_build_pairs_from(fields, values, 0)
}

/// Builds the emitted parameter list for one role: `None` when no field
/// carries the role, else the pairs of the fields whose serialized value is
/// present, in declaration order, duplicate wire names kept.
pub fn build_params(fields: &Vec<FieldVariable>, values: &Vec<(String, Option<String>)>) -> (r:
    Option<Vec<(String, String)>>)
    ensures
        fields.deep_view().len() == 0 ==> r is None,
        fields.deep_view().len() > 0 ==> (r matches Some(v) && v.deep_view() == spec_build_pairs(
            fields.deep_view(),
            values.deep_view(),
        )),
{
    if fields.len() == 0 {
        return None;
    }
    let ghost fv = fields.deep_view();
    let ghost vv = values.deep_view();
    let mut out: Vec<(String, String)> = Vec::new();
    let mut i: usize = 0;
    proof {
        assert(out.deep_view() =~= Seq::<(Seq<char>, Seq<char>)>::empty());
    }
    while i < fields.len()
        invariant
            i <= fields.len(),
            fv == fields.deep_view(),
            vv == values.deep_view(),
            out.deep_view() + spec_build_pairs_from(fv, vv, i as int) == spec_build_pairs_from(
                fv,
                vv,
                0,
            ),
        decreases fields.len() - i,
    {
        proof {
            assert(fv[i as int] == fields@[i as int].deep_view());
        }
        let ghost before = out.deep_view();
        let (key, value) = eval_field(&fields[i], values);
        match value {
            Some(v) => {
                let ghost pair = (key@, v@);
                out.push((key, v));
                proof {
                    assert(out.deep_view() =~= before.push(pair));
                    assert(before.push(pair) + spec_build_pairs_from(fv, vv, i as int + 1)
                        =~= before + (seq![pair] + spec_build_pairs_from(fv, vv, i as int + 1)));
                }
            },
            None => {},
        }
        i += 1;
    }
    proof {
        assert(out.deep_view() + spec_build_pairs_from(fv, vv, i as int) =~= out.deep_view());
    }
    Some(out)
}

// ---------------------------------------------------------------------------
// Omission and prefixing laws
// ---------------------------------------------------------------------------
proof fn lemma_build_pairs_push(
    fields: Seq<FieldVariableView>,
    values: Seq<(Seq<char>, Option<Seq<char>>)>,
    f: FieldVariableView,
    i: int,
)
    requires
        0 <= i <= fields.len(),
    ensures
        spec_build_pairs_from(fields.push(f), values, i) == spec_build_pairs_from(
            fields,
            values,
            i,
        ) + match spec_apply_with(f, spec_value_of(values, f.field)) {
            Some(v) => seq![(spec_field_key(f), v)],
            None => Seq::<(Seq<char>, Seq<char>)>::empty(),
        },
    decreases fields.len() - i,
{
    if i == fields.len() {
        assert(fields.push(f)[i] == f);
        assert(spec_build_pairs_from(fields.push(f), values, i + 1) =~= Seq::<
            (Seq<char>, Seq<char>),
        >::empty());
        assert(spec_build_pairs_from(fields, values, i) =~= Seq::<(Seq<char>, Seq<char>)>::empty());
        match spec_apply_with(f, spec_value_of(values, f.field)) {
            Some(v) => {
                assert(spec_build_pairs_from(fields.push(f), values, i) =~= seq![
                    (spec_field_key(f), v),
                ]);
            },
            None => {},
        }
    } else {
        lemma_build_pairs_push(fields, values, f, i + 1);
        assert(fields.push(f)[i] == fields[i]);
        match spec_eval_field(fields[i], values).1 {
            Some(v) => {
                assert(seq![(spec_field_key(fields[i]), v)] + spec_build_pairs_from(
                    fields.push(f),
                    values,
                    i + 1,
                ) =~= (seq![(spec_field_key(fields[i]), v)] + spec_build_pairs_from(
                    fields,
                    values,
                    i + 1,
                )) + match spec_apply_with(f, spec_value_of(values, f.field)) {
                    Some(w) => seq![(spec_field_key(f), w)],
                    None => Seq::<(Seq<char>, Seq<char>)>::empty(),
                });
            },
            None => {},
        }
    }
}

/// A field whose serialization is absent never appears: adding it to a role
/// list leaves the emitted pairs unchanged.
pub proof fn lemma_absent_field_omitted(
    fields: Seq<FieldVariableView>,
    values: Seq<(Seq<char>, Option<Seq<char>>)>,
    f: FieldVariableView,
)
    requires
        spec_value_of(values, f.field) is None,
    ensures
        spec_build_pairs(fields.push(f), values) == spec_build_pairs(fields, values),
{
    lemma_build_pairs_push(fields, values, f, 0);
    assert(spec_build_pairs(fields, values) + Seq::<(Seq<char>, Seq<char>)>::empty()
        =~= spec_build_pairs(fields, values));
}

/// A field whose serialization is present appears exactly once, under its
/// wire name, its value carrying the configured prefix.
pub proof fn lemma_present_field_prefixed(
    fields: Seq<FieldVariableView>,
    values: Seq<(Seq<char>, Option<Seq<char>>)>,
    f: FieldVariableView,
    v: Seq<char>,
    w: Seq<char>,
)
    requires
        spec_value_of(values, f.field) == Some(v),
        f.with == Some(w),
    ensures
        spec_build_pairs(fields.push(f), values) == spec_build_pairs(fields, values) + seq![
            (spec_field_key(f), w + v),
        ],
{
    lemma_build_pairs_push(fields, values, f, 0);
}

} // verus!
