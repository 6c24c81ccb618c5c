//! Numbers written out in decimal.

use vstd::prelude::*;
use vstd::string::*;

verus! {

/// The ten digits, in order.
pub open spec fn digits() -> Seq<char> {
    seq!['0', '1', '2', '3', '4', '5', '6', '7', '8', '9']
}

/// A natural number in decimal, without leading zeros.
pub open spec fn spec_natural(n: nat) -> Seq<char>
    decreases n,
{
    if n < 10 {
        seq![digits()[n as int]]
    } else {
        spec_natural(n / 10) + seq![digits()[(n % 10) as int]]
    }
}

/// An integer in decimal, with a minus sign in front where it is negative.
pub open spec fn spec_decimal(value: int) -> Seq<char> {
    if value < 0 {
        seq!['-'] + spec_natural((-value) as nat)
    } else {
        spec_natural(value as nat)
    }
}

/// One digit as a string.
fn digit(d: u64) -> (s: &'static str)
    requires
        d < 10,
    ensures
        s@ == seq![digits()[d as int]],
{
    proof {
        reveal_strlit("0");
        reveal_strlit("1");
        reveal_strlit("2");
        reveal_strlit("3");
        reveal_strlit("4");
        reveal_strlit("5");
        reveal_strlit("6");
        reveal_strlit("7");
        reveal_strlit("8");
        reveal_strlit("9");
    }
    let s = if d == 0 {
        "0"
    } else if d == 1 {
        "1"
    } else if d == 2 {
        "2"
    } else if d == 3 {
        "3"
    } else if d == 4 {
        "4"
    } else if d == 5 {
        "5"
    } else if d == 6 {
        "6"
    } else if d == 7 {
        "7"
    } else if d == 8 {
        "8"
    } else {
        "9"
    };
    assert(s@ =~= seq![digits()[d as int]]);
    s
}

/// A natural number written out in decimal.
pub fn natural(n: u64) -> (s: String)
    ensures
        s@ == spec_natural(n as nat),
    decreases n,
{
    if n < 10 {
        String::from_str(digit(n))
    } else {
        let mut s = natural(n / 10);
        s.append(digit(n % 10));
        s
    }
}

/// An integer written out in decimal.
pub fn decimal(value: i32) -> (s: String)
    ensures
        s@ == spec_decimal(value as int),
{
    if value < 0 {
        let magnitude: u64 = (-(value as i64)) as u64;
        proof {
            reveal_strlit("-");
            assert("-"@ =~= seq!['-']);
        }
        String::from_str("-").concat(natural(magnitude).as_str())
    } else {
        natural(value as u64)
    }
}

} // verus!
