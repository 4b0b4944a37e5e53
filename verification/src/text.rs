//! Decimal text of integers, as error messages show it.

use vstd::prelude::*;
use vstd::string::*;

verus! {

/// The character of a decimal digit.
pub open spec fn digit_char(d: nat) -> char {
    (48 + d) as char
}

/// The decimal digits of `n`, most significant first, without leading zeros.
pub open spec fn nat_text(n: nat) -> Seq<char>
    decreases n,
{
    if n < 10 {
        seq![digit_char(n)]
    } else {
        nat_text(n / 10).push(digit_char(n % 10))
    }
}

/// The decimal text of `i`, with a leading minus sign where it is negative.
pub open spec fn int_text(i: int) -> Seq<char> {
    if i < 0 {
        seq!['-'] + nat_text((-i) as nat)
    } else {
        nat_text(i as nat)
    }
}

fn digit_text(d: u64) -> (res: &'static str)
    requires
        d < 10,
    ensures
        res@ == seq![digit_char(d as nat)],
{
    proof {
        reveal_strlit("0");
        reveal_strlit("1");
        reveal_strlit("2");
        reveal_strlit("3");
        reveal_strlit("4");
        reveal_strlit("5");
        reveal_strlit("6");
        reveal_strlit("7");
        reveal_strlit("8");
        reveal_strlit("9");
    }
    let res: &'static str = if d == 0 {
        "0"
    } else if d == 1 {
        "1"
    } else if d == 2 {
        "2"
    } else if d == 3 {
        "3"
    } else if d == 4 {
        "4"
    } else if d == 5 {
        "5"
    } else if d == 6 {
        "6"
    } else if d == 7 {
        "7"
    } else if d == 8 {
        "8"
    } else {
        "9"
    };
    assert(res@ =~= seq![digit_char(d as nat)]);
    res
}

/// The decimal text of an unsigned value.
pub fn u64_text(value: u64) -> (res: String)
    ensures
        res@ == int_text(value as int),
    decreases value,
{
    if value < 10 {
        String::from_str(digit_text(value))
    } else {
        let mut res = u64_text(value / 10);
        res.append(digit_text(value % 10));
        assert(res@ =~= nat_text(value as nat));
        res
    }
}

/// The decimal text of a signed value.
pub fn i64_text(value: i64) -> (res: String)
    ensures
        res@ == int_text(value as int),
{
    if value >= 0 {
        u64_text(value as u64)
    } else {
        let magnitude: u64 = if value == i64::MIN {
            0x8000_0000_0000_0000
        } else {
            (-value) as u64
        };
        let mut res = String::from_str("-");
        proof {
            reveal_strlit("-");
        }
        res.append(u64_text(magnitude).as_str());
        assert(res@ =~= int_text(value as int));
        res
    }
}

/// `head` followed by `tail`.
pub fn join(head: &str, tail: &str) -> (res: String)
    ensures
        res@ == head@ + tail@,
{
    let mut res = String::from_str(head);
    res.append(tail);
    res
}

/// `head`, the decimal text of `value`, then `tail`.
pub fn around_i64(head: &str, value: i64, tail: &str) -> (res: String)
    ensures
        res@ == head@ + int_text(value as int) + tail@,
{
    let mut res = String::from_str(head);
    res.append(i64_text(value).as_str());
    res.append(tail);
    res
}

/// `head`, the decimal text of `value`, then `tail`.
pub fn around_u64(head: &str, value: u64, tail: &str) -> (res: String)
    ensures
        res@ == head@ + int_text(value as int) + tail@,
{
    let mut res = String::from_str(head);
    res.append(u64_text(value).as_str());
    res.append(tail);
    res
}

/// `head`, `middle`, then `tail`.
pub fn around(head: &str, middle: &str, tail: &str) -> (res: String)
    ensures
        res@ == head@ + middle@ + tail@,
{
    let mut res = String::from_str(head);
    res.append(middle);
    res.append(tail);
    res
}

/// A number is written in decimal digits, the last one standing for the remainder by ten, and a
/// negative one with a sign before the digits of its opposite.
pub proof fn law_decimal_text(i: int)
    ensures
        i < 0 ==> int_text(i) == seq!['-'] + int_text(-i),
        0 <= i < 10 ==> int_text(i) == seq![(48 + i) as char],
        i >= 10 ==> int_text(i) == int_text(i / 10).push((48 + i % 10) as char),
{
}

} // verus!
