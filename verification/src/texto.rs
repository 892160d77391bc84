//! Decimal rendering of sizes: a verified conversion from `u64` to its
//! base-10 string, used by the `stat`-style summary line.

use vstd::prelude::*;

verus! {

/// The character for one decimal digit.
pub open spec fn digito(d: int) -> char
    recommends
        0 <= d < 10,
{
    if d == 0 {
        '0'
    } else if d == 1 {
        '1'
    } else if d == 2 {
        '2'
    } else if d == 3 {
        '3'
    } else if d == 4 {
        '4'
    } else if d == 5 {
        '5'
    } else if d == 6 {
        '6'
    } else if d == 7 {
        '7'
    } else if d == 8 {
        '8'
    } else {
        '9'
    }
}

/// The base-10 rendering of a non-negative integer, most significant
/// digit first, with no leading zero except for the number 0 itself.
pub open spec fn decimal(n: int) -> Seq<char>
    recommends
        n >= 0,
    decreases n,
{
    if n < 10 {
        seq![digito(n)]
    } else {
        decimal(n / 10).push(digito(n % 10))
    }
}

fn str_digito(d: u64) -> (r: &'static str)
    requires
        d < 10,
    ensures
        r@ == seq![digito(d as int)],
{
    let r: &'static str = if d == 0 {
        "0"
    } else if d == 1 {
        "1"
    } else if d == 2 {
        "2"
    } else if d == 3 {
        "3"
    } else if d == 4 {
        "4"
    } else if d == 5 {
        "5"
    } else if d == 6 {
        "6"
    } else if d == 7 {
        "7"
    } else if d == 8 {
        "8"
    } else {
        "9"
    };
    proof {
        reveal_strlit("0");
        reveal_strlit("1");
        reveal_strlit("2");
        reveal_strlit("3");
        reveal_strlit("4");
        reveal_strlit("5");
        reveal_strlit("6");
        reveal_strlit("7");
        reveal_strlit("8");
        reveal_strlit("9");
        assert(r@ =~= seq![digito(d as int)]);
    }
    r
}

/// Renders a number in base 10, e.g. 1024 as `1024`.
pub fn decimal_string(n: u64) -> (r: String)
    ensures
        r@ == decimal(n as int),
    decreases n,
{
    if n < 10 {
        let mut s = String::new();
        s.append(str_digito(n));
        proof {
            assert(s@ =~= decimal(n as int));
        }
        s
    } else {
        let mut s = decimal_string(n / 10);
        s.append(str_digito(n % 10));
        proof {
            assert(s@ =~= decimal(n as int));
        }
        s
    }
}

} // verus!
