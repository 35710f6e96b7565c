use vstd::prelude::*;

verus! {

/// String equality by value, stated over the views.
pub fn str_eq(a: &str, b: &str) -> (r: bool)
    ensures
        r == (a@ == b@),
{
    let sa: String = a.to_owned();
    let sb: String = b.to_owned();
    sa == sb
}

/// The decimal digit for a value below ten.
pub open spec fn spec_digit(d: nat) -> char {
    if d == 0 {
        '0'
    } else if d == 1 {
        '1'
    } else if d == 2 {
        '2'
    } else if d == 3 {
        '3'
    } else if d == 4 {
        '4'
    } else if d == 5 {
        '5'
    } else if d == 6 {
        '6'
    } else if d == 7 {
        '7'
    } else if d == 8 {
        '8'
    } else {
        '9'
    }
}

/// The decimal representation of a natural number, most significant digit
/// first, without leading zeroes (a single `'0'` for zero).
pub open spec fn spec_dec(v: nat) -> Seq<char>
    decreases v,
{
    if v < 10 {
        seq![spec_digit(v)]
    } else {
        spec_dec(v / 10) + seq![spec_digit(v % 10)]
    }
}

fn digit_str(d: u64) -> (r: &'static str)
    requires
        d < 10,
    ensures
        r@ == seq![spec_digit(d as nat)],
{
    proof {
        reveal_strlit("0");
        reveal_strlit("1");
        reveal_strlit("2");
        reveal_strlit("3");
        reveal_strlit("4");
        reveal_strlit("5");
        reveal_strlit("6");
        reveal_strlit("7");
        reveal_strlit("8");
        reveal_strlit("9");
    }
    let r = if d == 0 {
        "0"
    } else if d == 1 {
        "1"
    } else if d == 2 {
        "2"
    } else if d == 3 {
        "3"
    } else if d == 4 {
        "4"
    } else if d == 5 {
        "5"
    } else if d == 6 {
        "6"
    } else if d == 7 {
        "7"
    } else if d == 8 {
        "8"
    } else {
        "9"
    };
    proof {
        assert(r@ =~= seq![spec_digit(d as nat)]);
    }
    r
}

/// Appends the decimal representation of `v` to `out`.
pub fn push_u64(out: &mut String, v: u64)
    ensures
        final (out)@ == old(out)@ + spec_dec(v as nat),
    decreases v,
{
    if v < 10 {
        out.append(digit_str(v));
    } else {
        push_u64(out, v / 10);
        out.append(digit_str(v % 10));
    }
}

/// The decimal representation of an unsigned integer.
pub fn u64_to_string(v: u64) -> (r: String)
    ensures
        r@ == spec_dec(v as nat),
{
    let mut out = String::new();
    push_u64(&mut out, v);
    proof {
        assert(out@ =~= spec_dec(v as nat));
    }
    out
}

/// The decimal representation of a signed integer: a `'-'` sign when the
/// value is negative, then the digits of its absolute value.
pub open spec fn spec_dec_signed(v: int) -> Seq<char> {
    if v < 0 {
        seq!['-'] + spec_dec((-v) as nat)
    } else {
        spec_dec(v as nat)
    }
}

/// The decimal representation of a signed integer.
pub fn i64_to_string(v: i64) -> (r: String)
    ensures
        r@ == spec_dec_signed(v as int),
{
    if v >= 0 {
        u64_to_string(v as u64)
    } else {
        // i64::MIN has no i64 negation; give its magnitude directly.
        let abs: u64 = if v == i64::MIN {
            9223372036854775808u64
        } else {
            (-v) as u64
        };
        assert(abs == -(v as int));
        let mut out = String::new();
        proof {
            reveal_strlit("-");
        }
        out.append("-");
        push_u64(&mut out, abs);
        proof {
            assert(out@ =~= spec_dec_signed(v as int));
        }
        out
    }
}

} // verus!
