//! Verified rendering of the primitive values that appear in connection
//! descriptions: unsigned port numbers in decimal and booleans as the
//! words `true` / `false`.

use vstd::prelude::*;

verus! {

/// The character for a single decimal digit value.
pub open spec fn digit_rep(d: int) -> char {
    if d == 0 {
        '0'
    } else if d == 1 {
        '1'
    } else if d == 2 {
        '2'
    } else if d == 3 {
        '3'
    } else if d == 4 {
        '4'
    } else if d == 5 {
        '5'
    } else if d == 6 {
        '6'
    } else if d == 7 {
        '7'
    } else if d == 8 {
        '8'
    } else {
        '9'
    }
}

/// The usual decimal rendering of a non-negative integer: most
/// significant digit first, no leading zeros (except for zero itself).
pub open spec fn dec_rep(n: int) -> Seq<char>
    decreases n,
{
    if n < 10 {
        seq![digit_rep(n)]
    } else {
        dec_rep(n / 10) + seq![digit_rep(n % 10)]
    }
}

/// The rendering of a boolean: the word `true` or the word `false`.
pub open spec fn bool_rep(b: bool) -> Seq<char> {
    if b {
        "true"@
    } else {
        "false"@
    }
}

/// Appends the decimal rendering of `n` to `s`.
pub fn push_u16(s: &mut String, n: u16)
    ensures
        final(s)@ == old(s)@ + dec_rep(n as int),
    decreases n,
{
    if n >= 10 {
        push_u16(s, n / 10);
    }
    let d: u16 = n % 10;
    let ds: &str = if d == 0 {
        "0"
    } else if d == 1 {
        "1"
    } else if d == 2 {
        "2"
    } else if d == 3 {
        "3"
    } else if d == 4 {
        "4"
    } else if d == 5 {
        "5"
    } else if d == 6 {
        "6"
    } else if d == 7 {
        "7"
    } else if d == 8 {
        "8"
    } else {
        "9"
    };
    proof {
        reveal_strlit("0");
        reveal_strlit("1");
        reveal_strlit("2");
        reveal_strlit("3");
        reveal_strlit("4");
        reveal_strlit("5");
        reveal_strlit("6");
        reveal_strlit("7");
        reveal_strlit("8");
        reveal_strlit("9");
        assert(ds@ =~= seq![digit_rep(d as int)]);
    }
    s.append(ds);
    proof {
        assert(s@ =~= old(s)@ + dec_rep(n as int));
    }
}

/// Appends `true` or `false` to `s`.
pub fn push_bool(s: &mut String, b: bool)
    ensures
        final(s)@ == old(s)@ + bool_rep(b),
{
    let bs: &str = if b {
        "true"
    } else {
        "false"
    };
    s.append(bs);
}

/// The decimal rendering of `n` as a fresh string.
pub fn u16_to_string(n: u16) -> (r: String)
    ensures
        r@ == dec_rep(n as int),
{
    let mut s = String::new();
    push_u16(&mut s, n);
    proof {
        assert(s@ =~= dec_rep(n as int));
    }
    s
}

} // verus!
