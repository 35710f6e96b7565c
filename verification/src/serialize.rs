use vstd::prelude::*;
use vstd::string::StringExecFns;

use crate::strutil::{i64_to_string, spec_dec, spec_dec_signed, u64_to_string};

verus! {

/// How request field values become wire strings: `None` stands for an
/// absent value, which the emitter omits from the request.
pub trait RequestSerialize {
    /// Whether serialization is defined for this value.
    spec fn spec_can_serialize(&self) -> bool;

    /// What serialization yields.
    spec fn spec_serialize(&self) -> Option<Seq<char>>;

    /// The wire string for this value, or `None` when it is absent.
    fn serialize(&self) -> (r: Option<String>)
        requires
            self.spec_can_serialize(),
        ensures
            r.deep_view() == self.spec_serialize(),
    ;
}

impl RequestSerialize for String {
    open spec fn spec_can_serialize(&self) -> bool {
        true
    }

    open spec fn spec_serialize(&self) -> Option<Seq<char>> {
        Some(self@)
    }

    fn serialize(&self) -> (r: Option<String>) {
        Some(self.clone())
    }
}

impl<'a> RequestSerialize for &'a str {
    open spec fn spec_can_serialize(&self) -> bool {
        true
    }

    open spec fn spec_serialize(&self) -> Option<Seq<char>> {
        Some(self@)
    }

    fn serialize(&self) -> (r: Option<String>) {
        Some(String::from_str(self))
    }
}

/// The wire form of a boolean.
pub open spec fn spec_bool_str(b: bool) -> Seq<char> {
    if b {
        "true"@
    } else {
        "false"@
    }
}

impl RequestSerialize for bool {
    open spec fn spec_can_serialize(&self) -> bool {
        true
    }

    open spec fn spec_serialize(&self) -> Option<Seq<char>> {
        Some(spec_bool_str(*self))
    }

    fn serialize(&self) -> (r: Option<String>) {
        if *self {
            Some(String::from_str("true"))
        } else {
            Some(String::from_str("false"))
        }
    }
}

impl RequestSerialize for u8 {
    open spec fn spec_can_serialize(&self) -> bool {
        true
    }

    open spec fn spec_serialize(&self) -> Option<Seq<char>> {
        Some(spec_dec(*self as nat))
    }

    fn serialize(&self) -> (r: Option<String>) {
        Some(u64_to_string(*self as u64))
    }
}

impl RequestSerialize for u16 {
    open spec fn spec_can_serialize(&self) -> bool {
        true
    }

    open spec fn spec_serialize(&self) -> Option<Seq<char>> {
        Some(spec_dec(*self as nat))
    }

    fn serialize(&self) -> (r: Option<String>) {
        Some(u64_to_string(*self as u64))
    }
}

impl RequestSerialize for u32 {
    open spec fn spec_can_serialize(&self) -> bool {
        true
    }

    open spec fn spec_serialize(&self) -> Option<Seq<char>> {
        Some(spec_dec(*self as nat))
    }

    fn serialize(&self) -> (r: Option<String>) {
        Some(u64_to_string(*self as u64))
    }
}

impl RequestSerialize for u64 {
    open spec fn spec_can_serialize(&self) -> bool {
        true
    }

    open spec fn spec_serialize(&self) -> Option<Seq<char>> {
        Some(spec_dec(*self as nat))
    }

    fn serialize(&self) -> (r: Option<String>) {
        Some(u64_to_string(*self))
    }
}

impl RequestSerialize for i8 {
    open spec fn spec_can_serialize(&self) -> bool {
        true
    }

    open spec fn spec_serialize(&self) -> Option<Seq<char>> {
        Some(spec_dec_signed(*self as int))
    }

    fn serialize(&self) -> (r: Option<String>) {
        Some(i64_to_string(*self as i64))
    }
}

impl RequestSerialize for i16 {
    open spec fn spec_can_serialize(&self) -> bool {
        true
    }

    open spec fn spec_serialize(&self) -> Option<Seq<char>> {
        Some(spec_dec_signed(*self as int))
    }

    fn serialize(&self) -> (r: Option<String>) {
        Some(i64_to_string(*self as i64))
    }
}

impl RequestSerialize for i32 {
    open spec fn spec_can_serialize(&self) -> bool {
        true
    }

    open spec fn spec_serialize(&self) -> Option<Seq<char>> {
        Some(spec_dec_signed(*self as int))
    }

    fn serialize(&self) -> (r: Option<String>) {
        Some(i64_to_string(*self as i64))
    }
}

impl RequestSerialize for i64 {
    open spec fn spec_can_serialize(&self) -> bool {
        true
    }

    open spec fn spec_serialize(&self) -> Option<Seq<char>> {
        Some(spec_dec_signed(*self as int))
    }

    fn serialize(&self) -> (r: Option<String>) {
        Some(i64_to_string(*self))
    }
}

impl<T: RequestSerialize> RequestSerialize for Option<T> {
    open spec fn spec_can_serialize(&self) -> bool {
        match self {
            Some(v) => v.spec_can_serialize(),
            None => true,
        }
    }

    /// An absent option serializes to an absent value.
    open spec fn spec_serialize(&self) -> Option<Seq<char>> {
        match self {
            Some(v) => v.spec_serialize(),
            None => None,
        }
    }

    fn serialize(&self) -> (r: Option<String>) {
        match self {
            Some(v) => v.serialize(),
            None => None,
        }
    }
}

/// The comma-separated join of the given parts.
pub open spec fn spec_join(parts: Seq<Seq<char>>) -> Seq<char>
    decreases parts.len(),
{
    if parts.len() == 0 {
        Seq::empty()
    } else if parts.len() == 1 {
        parts[0]
    } else {
        spec_join(parts.drop_last()) + seq![','] + parts.last()
    }
}

impl<T: RequestSerialize> RequestSerialize for Vec<T> {
    /// Every element must itself serialize to a present value.
    open spec fn spec_can_serialize(&self) -> bool {
        forall|i: int|
            0 <= i < self@.len() ==> (#[trigger] self@[i].spec_can_serialize()
                && self@[i].spec_serialize() is Some)
    }

    /// The elements' wire strings, joined with commas.
    open spec fn spec_serialize(&self) -> Option<Seq<char>> {
        Some(spec_join(Seq::new(self@.len(), |i: int| self@[i].spec_serialize()->Some_0)))
    }

    fn serialize(&self) -> (r: Option<String>) {
        let ghost parts = Seq::new(self@.len(), |i: int| self@[i].spec_serialize()->Some_0);
        let mut s = String::new();
        let mut i: usize = 0;
        while i < self.len()
            invariant
                i <= self@.len(),
                self.spec_can_serialize(),
                parts == Seq::new(self@.len(), |k: int| self@[k].spec_serialize()->Some_0),
                s@ == spec_join(parts.take(i as int)),
            decreases self@.len() - i,
        {
            let ghost pre = s@;
            if i > 0 {
                s.append(",");
            }
            match self[i].serialize() {
                Some(val) => {
                    s.append(val.as_str());
                    proof {
                        reveal_strlit(",");
                        assert(","@ =~= seq![',']);
                        assert(parts.take(i as int + 1).drop_last() =~= parts.take(i as int));
                        assert(parts.take(i as int + 1).last() == parts[i as int]);
                        if i == 0 {
                            assert(s@ =~= parts[0]);
                            assert(s@ == spec_join(parts.take(1)));
                        } else {
                            let ghost pi = parts[i as int];
                            assert(s@ =~= spec_join(parts.take(i as int)) + seq![','] + pi);
                        }
                    }
                },
                None => {
                    proof {
                        assert(self@[i as int].spec_can_serialize());
                        assert(self@[i as int].spec_serialize() is Some);
                    }
                    // unreachable: every element is present under the precondition
                    return None;
                },
            }
            i += 1;
        }
        proof {
            assert(parts.take(self@.len() as int) =~= parts);
        }
        Some(s)
    }
}

} // verus!
