use vstd::prelude::*;
use vstd::string::*;

use crate::strutil::str_eq;

verus! {

/// Whether a character may appear in a `:name` placeholder.
pub open spec fn is_word_char(c: char) -> bool {
    ('a' <= c && c <= 'z') || ('A' <= c && c <= 'Z') || ('0' <= c && c <= '9') || c == '_'
}

/// The length of the run of word characters starting at `i`.
pub open spec fn word_run(s: Seq<char>, i: int) -> int
    decreases s.len() - i,
{
    if i < 0 || i >= s.len() {
        0
    } else if is_word_char(s[i]) {
        1 + word_run(s, i + 1)
    } else {
        0
    }
}

proof fn lemma_word_run_bound(s: Seq<char>, i: int)
    ensures
        0 <= word_run(s, i),
        i + word_run(s, i) <= s.len() || i > s.len(),
    decreases s.len() - i,
{
    if i < 0 || i >= s.len() {
    } else {
        lemma_word_run_bound(s, i + 1);
    }
}

proof fn lemma_word_run_value(s: Seq<char>, i: int, j: int)
    requires
        0 <= i <= j <= s.len(),
        forall|k: int| i <= k < j ==> is_word_char(#[trigger] s[k]),
        j == s.len() || !is_word_char(s[j]),
    ensures
        word_run(s, i) == j - i,
    decreases j - i,
{
    if i == j {
    } else {
        assert(is_word_char(s[i]));
        lemma_word_run_value(s, i + 1, j);
    }
}

/// The value bound to `name`, the last binding winning, as an insertion
/// into a map would have it.
pub open spec fn spec_lookup(params: Seq<(Seq<char>, Seq<char>)>, name: Seq<char>) -> Option<
    Seq<char>,
>
    decreases params.len(),
{
    if params.len() == 0 {
        None
    } else if params.last().0 == name {
        Some(params.last().1)
    } else {
        spec_lookup(params.drop_last(), name)
    }
}

/// The substitution of `:name` placeholders in `s` from position `i` on: a
/// `':'` followed by at least one word character opens a placeholder whose
/// name is the maximal word-character run; a bound name is replaced by its
/// value, an unbound one is kept verbatim; everything else is copied.
pub open spec fn spec_subst_from(
    s: Seq<char>,
    params: Seq<(Seq<char>, Seq<char>)>,
    i: int,
) -> Seq<char>
    decreases s.len() - i,
    via spec_subst_from_decreases
{
    if i < 0 || i >= s.len() {
        Seq::empty()
    } else if s[i] == ':' && i + 1 < s.len() && is_word_char(s[i + 1]) {
        let n = word_run(s, i + 1);
        let name = s.subrange(i + 1, i + 1 + n);
        match spec_lookup(params, name) {
            Some(v) => v + spec_subst_from(s, params, i + 1 + n),
            None => s.subrange(i, i + 1 + n) + spec_subst_from(s, params, i + 1 + n),
        }
    } else {
        seq![s[i]] + spec_subst_from(s, params, i + 1)
    }
}

#[via_fn]
proof fn spec_subst_from_decreases(s: Seq<char>, params: Seq<(Seq<char>, Seq<char>)>, i: int) {
    lemma_word_run_bound(s, i + 1);
}

/// What [`replace_path_params`] returns on `s` and `params`.
pub open spec fn spec_subst(s: Seq<char>, params: Seq<(Seq<char>, Seq<char>)>) -> Seq<char> {
    spec_subst_from(s, params, 0)
}

fn word_char(c: char) -> (r: bool)
    ensures
        r == is_word_char(c),
{
    ('a' <= c && c <= 'z') || ('A' <= c && c <= 'Z') || ('0' <= c && c <= '9') || c == '_'
}

/// Looks `name` up among the parameter pairs, the last binding winning.
pub fn lookup_param<'a>(params: &'a Vec<(String, String)>, name: &str) -> (r: Option<&'a String>)
    ensures
        match r {
            Some(v) => spec_lookup(params.deep_view(), name@) == Some(v@),
            None => spec_lookup(params.deep_view(), name@) is None,
        },
{
    let ghost pv = params.deep_view();
    let mut k: usize = params.len();
    proof {
        assert(pv.take(k as int) =~= pv);
    }
    while k > 0
        invariant
            k <= params.len(),
            pv == params.deep_view(),
            spec_lookup(pv, name@) == spec_lookup(pv.take(k as int), name@),
        decreases k,
    {
        k = k - 1;
        proof {
            assert(pv[k as int] == params@[k as int].deep_view());
            assert(pv.take(k as int + 1).drop_last() =~= pv.take(k as int));
            assert(pv.take(k as int + 1).last() == pv[k as int]);
        }
        if str_eq(params[k].0.as_str(), name) {
            return Some(&params[k].1);
        }
    }
    proof {
        assert(pv.take(0) =~= Seq::<(Seq<char>, Seq<char>)>::empty());
    }
    None
}

/// Replaces every `:name` placeholder of `path` by the value bound to
/// `name`, leaving unbound placeholders and everything else verbatim.
pub fn replace_path_params(path: &str, params: &Vec<(String, String)>) -> (r: String)
    ensures
        r@ == spec_subst(path@, params.deep_view()),
{
    let ghost s = path@;
    let ghost pv = params.deep_view();
    let n = path.unicode_len();
    let mut out = String::new();
    let mut i: usize = 0;
    while i < n
        invariant
            i <= n,
            n == s.len(),
            s == path@,
            pv == params.deep_view(),
            out@ + spec_subst_from(s, pv, i as int) == spec_subst_from(s, pv, 0),
        decreases n - i,
    {
        let c = path.get_char(i);
        if c == ':' && i + 1 < n && word_char(path.get_char(i + 1)) {
            // the maximal word run after the colon is the placeholder name
            let mut j = i + 1;
            while j < n && word_char(path.get_char(j))
                invariant
                    i + 1 <= j <= n,
                    n == s.len(),
                    s == path@,
                    forall|k: int| i + 1 <= k < j as int ==> is_word_char(#[trigger] s[k]),
                decreases n - j,
            {
                j += 1;
            }
            proof {
                lemma_word_run_value(s, i as int + 1, j as int);
            }
            let name = path.substring_char(i + 1, j);
            let ghost before = out@;
            match lookup_param(params, name) {
                Some(v) => {
                    out.append(v.as_str());
                },
                None => {
                    out.append(path.substring_char(i, j));
                },
            }
            proof {
                assert(out@ + spec_subst_from(s, pv, j as int) =~= before + spec_subst_from(
                    s,
                    pv,
                    i as int,
                ));
            }
            i = j;
        } else {
            let ghost before = out@;
            out.append(path.substring_char(i, i + 1));
            proof {
                assert(s.subrange(i as int, i as int + 1) =~= seq![s[i as int]]);
                assert(out@ + spec_subst_from(s, pv, i as int + 1) =~= before + spec_subst_from(
                    s,
                    pv,
                    i as int,
                ));
            }
            i += 1;
        }
    }
    proof {
        assert(out@ + spec_subst_from(s, pv, n as int) =~= out@);
    }
    out
}

// ---------------------------------------------------------------------------
// Substitution laws
// ---------------------------------------------------------------------------
/// Whether `s` holds a placeholder anywhere at or after position `i`.
pub open spec fn has_placeholder_from(s: Seq<char>, i: int) -> bool {
    exists|k: int| i <= k && k + 1 < s.len() && #[trigger] s[k] == ':' && is_word_char(s[k + 1])
}

/// Whether `s` holds any `:name` placeholder.
pub open spec fn has_placeholder(s: Seq<char>) -> bool {
    has_placeholder_from(s, 0)
}

proof fn lemma_subst_no_placeholder_from(s: Seq<char>, params: Seq<(Seq<char>, Seq<char>)>, i: int)
    requires
        0 <= i <= s.len(),
        !has_placeholder_from(s, i),
    ensures
        spec_subst_from(s, params, i) == s.skip(i),
    decreases s.len() - i,
{
    if i >= s.len() {
        assert(spec_subst_from(s, params, i) =~= s.skip(i));
    } else {
        if s[i] == ':' && i + 1 < s.len() && is_word_char(s[i + 1]) {
            assert(has_placeholder_from(s, i));
        }
        assert(!has_placeholder_from(s, i + 1));
        lemma_subst_no_placeholder_from(s, params, i + 1);
        assert(seq![s[i]] + s.skip(i + 1) =~= s.skip(i));
    }
}

/// Substitution is the identity on a path without placeholders, whatever
/// the parameters: on such inputs it is idempotent.
pub proof fn lemma_subst_no_placeholders(s: Seq<char>, params: Seq<(Seq<char>, Seq<char>)>)
    requires
        !has_placeholder(s),
    ensures
        spec_subst(s, params) == s,
{
    assert forall|i: int| 0 <= i <= s.len() implies !has_placeholder_from(s, i) by {
        if has_placeholder_from(s, i) {
            let k = choose|k: int|
                i <= k && k + 1 < s.len() && #[trigger] s[k] == ':' && is_word_char(s[k + 1]);
            assert(has_placeholder_from(s, 0));
        }
    }
    lemma_subst_no_placeholder_from(s, params, 0);
    assert(s.skip(0) =~= s);
}

proof fn lemma_subst_unbound_from(s: Seq<char>, params: Seq<(Seq<char>, Seq<char>)>, i: int)
    requires
        0 <= i <= s.len(),
        forall|name: Seq<char>| spec_lookup(params, name) is None,
    ensures
        spec_subst_from(s, params, i) == s.skip(i),
    decreases s.len() - i,
{
    if i >= s.len() {
        assert(spec_subst_from(s, params, i) =~= s.skip(i));
    } else if s[i] == ':' && i + 1 < s.len() && is_word_char(s[i + 1]) {
        let n = word_run(s, i + 1);
        lemma_word_run_bound(s, i + 1);
        lemma_subst_unbound_from(s, params, i + 1 + n);
        assert(s.subrange(i, i + 1 + n) + s.skip(i + 1 + n) =~= s.skip(i));
    } else {
        lemma_subst_unbound_from(s, params, i + 1);
        assert(seq![s[i]] + s.skip(i + 1) =~= s.skip(i));
    }
}

/// A placeholder whose name is not supplied stays verbatim: substitution
/// with no bindings at all returns the path unchanged, placeholders and
/// all.
pub proof fn lemma_subst_unbound_verbatim(s: Seq<char>)
    ensures
        spec_subst(s, Seq::<(Seq<char>, Seq<char>)>::empty()) == s,
{
    lemma_subst_unbound_from(s, Seq::<(Seq<char>, Seq<char>)>::empty(), 0);
    assert(s.skip(0) =~= s);
}

} // verus!
