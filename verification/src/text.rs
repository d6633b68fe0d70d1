//! Decimal rendering of integers and small helpers for building strings.

use vstd::prelude::*;

verus! {

/// The character of a decimal digit; `'0'` outside `0..=9`.
pub open spec fn digit_char(d: int) -> char {
    if d == 1 {
        '1'
    } else if d == 2 {
        '2'
    } else if d == 3 {
        '3'
    } else if d == 4 {
        '4'
    } else if d == 5 {
        '5'
    } else if d == 6 {
        '6'
    } else if d == 7 {
        '7'
    } else if d == 8 {
        '8'
    } else if d == 9 {
        '9'
    } else {
        '0'
    }
}

/// The decimal digits of a natural number, most significant first, without
/// leading zeros; zero is the single digit `0`.
pub open spec fn nat_text(n: nat) -> Seq<char>
    decreases n,
{
    if n < 10 {
        seq![digit_char(n as int)]
    } else {
        nat_text(n / 10).push(digit_char((n % 10) as int))
    }
}

/// The decimal rendering of an integer: a minus sign before the digits of a
/// negative number, nothing before the others.
pub open spec fn int_text(v: int) -> Seq<char> {
    if v < 0 {
        seq!['-'] + nat_text((-v) as nat)
    } else {
        nat_text(v as nat)
    }
}

/// A decimal rendering is never empty.
pub proof fn lemma_nat_text_nonempty(n: nat)
    ensures
        nat_text(n).len() >= 1,
    decreases n,
{
    if n >= 10 {
        lemma_nat_text_nonempty(n / 10);
    }
}

/// A number of two digits or more has a rendering of two characters or
/// more.
pub proof fn lemma_nat_text_long(n: nat)
    requires
        n >= 10,
    ensures
        nat_text(n).len() >= 2,
{
    lemma_nat_text_nonempty(n / 10);
}

/// Different numbers have different renderings.
pub proof fn lemma_nat_text_injective(a: nat, b: nat)
    requires
        nat_text(a) == nat_text(b),
    ensures
        a == b,
    decreases a,
{
    if a < 10 && b < 10 {
        assert(nat_text(a)[0] == digit_char(a as int));
        assert(nat_text(b)[0] == digit_char(b as int));
    } else if a < 10 {
        lemma_nat_text_long(b);
    } else if b < 10 {
        lemma_nat_text_long(a);
    } else {
        let da = digit_char((a % 10) as int);
        let db = digit_char((b % 10) as int);
        assert(nat_text(a / 10).push(da).drop_last() =~= nat_text(a / 10));
        assert(nat_text(b / 10).push(db).drop_last() =~= nat_text(b / 10));
        assert(nat_text(a / 10).push(da).last() == da);
        assert(nat_text(b / 10).push(db).last() == db);
        lemma_nat_text_injective(a / 10, b / 10);
    }
}

/// The one-character string of a decimal digit.
fn digit_str(d: u64) -> (s: &'static str)
    requires
        d < 10,
    ensures
        s@ == seq![digit_char(d as int)],
{
    proof {
        reveal_strlit("0");
        reveal_strlit("1");
        reveal_strlit("2");
        reveal_strlit("3");
        reveal_strlit("4");
        reveal_strlit("5");
        reveal_strlit("6");
        reveal_strlit("7");
        reveal_strlit("8");
        reveal_strlit("9");
    }
    let s = if d == 0 {
        "0"
    } else if d == 1 {
        "1"
    } else if d == 2 {
        "2"
    } else if d == 3 {
        "3"
    } else if d == 4 {
        "4"
    } else if d == 5 {
        "5"
    } else if d == 6 {
        "6"
    } else if d == 7 {
        "7"
    } else if d == 8 {
        "8"
    } else {
        "9"
    };
    assert(s@ =~= seq![digit_char(d as int)]);
    s
}

/// Renders an unsigned number in decimal.
pub fn u64_to_text(n: u64) -> (s: String)
    ensures
        s@ == nat_text(n as nat),
    decreases n,
{
    if n < 10 {
        String::from_str(digit_str(n))
    } else {
        let mut s = u64_to_text(n / 10);
        s.append(digit_str(n % 10));
        assert(s@ =~= nat_text(n as nat));
        s
    }
}

/// Renders a `usize` in decimal.
pub fn usize_to_text(n: usize) -> (s: String)
    ensures
        s@ == nat_text(n as nat),
{
    u64_to_text(n as u64)
}

/// Renders a signed number in decimal.
pub fn i64_to_text(v: i64) -> (s: String)
    ensures
        s@ == int_text(v as int),
{
    if v < 0 {
        let magnitude: u64 = if v == i64::MIN {
            9223372036854775808u64
        } else {
            (-v) as u64
        };
        proof {
            reveal_strlit("-");
        }
        let mut s = String::from_str("-");
        let digits = u64_to_text(magnitude);
        s.append(digits.as_str());
        assert(s@ =~= int_text(v as int));
        s
    } else {
        u64_to_text(v as u64)
    }
}

/// Joins three pieces of text.
pub fn concat3(a: &str, b: &str, c: &str) -> (s: String)
    ensures
        s@ == a@ + b@ + c@,
{
    let mut s = String::from_str(a);
    s.append(b);
    s.append(c);
    s
}

} // verus!
