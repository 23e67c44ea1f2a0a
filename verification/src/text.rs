//! Text helpers: the characters of a string, and decimal and hexadecimal
//! rendering of unsigned integers.

use vstd::prelude::*;

verus! {

/// The ASCII digit for a value below ten.
pub open spec fn spec_digit(d: nat) -> char {
    if d == 0 { '0' }
    else if d == 1 { '1' }
    else if d == 2 { '2' }
    else if d == 3 { '3' }
    else if d == 4 { '4' }
    else if d == 5 { '5' }
    else if d == 6 { '6' }
    else if d == 7 { '7' }
    else if d == 8 { '8' }
    else { '9' }
}

/// The decimal representation of `n`, most significant digit first, with
/// no leading zeros (and the single digit `0` for zero).
pub open spec fn spec_decimal(n: nat) -> Seq<char>
    decreases n,
{
    if n < 10 {
        seq![spec_digit(n)]
    } else {
        spec_decimal(n / 10).push(spec_digit(n % 10))
    }
}

/// The one-character text of a hexadecimal digit value.
fn digit_text(d: u64) -> (t: &'static str)
    requires
        d < 16,
    ensures
        t@ == seq![spec_hex_digit(d as nat)],
{
    if d == 0 {
        proof {
            reveal_strlit("0");
        }
        "0"
    } else if d == 1 {
        proof {
            reveal_strlit("1");
        }
        "1"
    } else if d == 2 {
        proof {
            reveal_strlit("2");
        }
        "2"
    } else if d == 3 {
        proof {
            reveal_strlit("3");
        }
        "3"
    } else if d == 4 {
        proof {
            reveal_strlit("4");
        }
        "4"
    } else if d == 5 {
        proof {
            reveal_strlit("5");
        }
        "5"
    } else if d == 6 {
        proof {
            reveal_strlit("6");
        }
        "6"
    } else if d == 7 {
        proof {
            reveal_strlit("7");
        }
        "7"
    } else if d == 8 {
        proof {
            reveal_strlit("8");
        }
        "8"
    } else if d == 9 {
        proof {
            reveal_strlit("9");
        }
        "9"
    } else if d == 10 {
        proof {
            reveal_strlit("a");
        }
        "a"
    } else if d == 11 {
        proof {
            reveal_strlit("b");
        }
        "b"
    } else if d == 12 {
        proof {
            reveal_strlit("c");
        }
        "c"
    } else if d == 13 {
        proof {
            reveal_strlit("d");
        }
        "d"
    } else if d == 14 {
        proof {
            reveal_strlit("e");
        }
        "e"
    } else {
        proof {
            reveal_strlit("f");
        }
        "f"
    }
}

/// Renders `n` in decimal.
pub fn decimal_u64(n: u64) -> (s: String)
    ensures
        s@ == spec_decimal(n as nat),
    decreases n,
{
    if n < 10 {
        let mut s = String::new();
        s.append(digit_text(n));
        assert(s@ =~= seq![spec_digit(n as nat)]);
        s
    } else {
        let mut s = decimal_u64(n / 10);
        s.append(digit_text(n % 10));
        assert(s@ =~= spec_decimal(n as nat / 10).push(spec_digit(n as nat % 10)));
        s
    }
}

/// The lower-case hexadecimal digit for a value below sixteen.
pub open spec fn spec_hex_digit(d: nat) -> char {
    if d < 10 { spec_digit(d) }
    else if d == 10 { 'a' }
    else if d == 11 { 'b' }
    else if d == 12 { 'c' }
    else if d == 13 { 'd' }
    else if d == 14 { 'e' }
    else { 'f' }
}

/// The lower-case hexadecimal representation of `n`, most significant
/// digit first, with no leading zeros (and `0` for zero).
pub open spec fn spec_hex(n: nat) -> Seq<char>
    decreases n,
{
    if n < 16 {
        seq![spec_hex_digit(n)]
    } else {
        spec_hex(n / 16).push(spec_hex_digit(n % 16))
    }
}

/// Renders `n` in lower-case hexadecimal, without a prefix.
pub fn hex_u64(n: u64) -> (s: String)
    ensures
        s@ == spec_hex(n as nat),
    decreases n,
{
    if n < 16 {
        let mut s = String::new();
        s.append(digit_text(n));
        assert(s@ =~= seq![spec_hex_digit(n as nat)]);
        s
    } else {
        let mut s = hex_u64(n / 16);
        s.append(digit_text(n % 16));
        assert(s@ =~= spec_hex(n as nat / 16).push(spec_hex_digit(n as nat % 16)));
        s
    }
}

/// The characters of `s`.
pub fn chars_of(s: &str) -> (v: Vec<char>)
    ensures
        v@ == s@,
{
    let mut v: Vec<char> = Vec::new();
    for c in it: s.chars()
        invariant
            it.seq() == s@,
            v@ == s@.take(it.index() as int),
    {
        v.push(c);
        assert(v@ =~= s@.take(it.index() + 1));
    }
    assert(v@ =~= s@);
    v
}

} // verus!
