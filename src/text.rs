use vstd::prelude::*;
use vstd::string::*;

verus! {

pub open spec fn digit_char(d: nat) -> char {
    if d == 0 { '0' }
    else if d == 1 { '1' }
    else if d == 2 { '2' }
    else if d == 3 { '3' }
    else if d == 4 { '4' }
    else if d == 5 { '5' }
    else if d == 6 { '6' }
    else if d == 7 { '7' }
    else if d == 8 { '8' }
    else { '9' }
}

/// The decimal digits of `n`, most significant first, without leading zeros.
pub open spec fn decimal(n: nat) -> Seq<char>
    decreases n,
{
    if n < 10 {
        seq![digit_char(n)]
    } else {
        decimal(n / 10).push(digit_char(n % 10))
    }
}

/// The decimal spelling of `n`, with a leading minus sign when negative.
pub open spec fn signed_decimal(n: int) -> Seq<char> {
    if n < 0 {
        seq!['-'] + decimal((-n) as nat)
    } else {
        decimal(n as nat)
    }
}

/// Writes `n` in decimal digits, without leading zeros.
pub fn decimal_text(n: u64) -> (r: String)
    ensures
        r@ == decimal(n as nat),
    decreases n,
{
    if n < 10 {
        String::from_str(digit_str(n as u32))
    } else {
        let mut s = decimal_text(n / 10);
        s.append(digit_str((n % 10) as u32));
        s
    }
}

/// Writes `n` in decimal, with a minus sign when negative.
pub fn int_text(n: i64) -> (r: String)
    ensures
        r@ == signed_decimal(n as int),
{
    if n < 0 {
        let m = (-(n as i128)) as u64;
        let mut s = String::from_str("-");
        s.append(decimal_text(m).as_str());
        proof {
            reveal_strlit("-");
        }
        assert(s@ =~= signed_decimal(n as int));
        s
    } else {
        decimal_text(n as u64)
    }
}

/// `f` thousandths written as the digits after a decimal point: three
/// digits, trailing zeros dropped (`f` is not zero).
pub open spec fn fraction_digits(f: nat) -> Seq<char> {
    if f % 100 == 0 {
        seq![digit_char(f / 100)]
    } else if f % 10 == 0 {
        seq![digit_char(f / 100), digit_char((f / 10) % 10)]
    } else {
        seq![digit_char(f / 100), digit_char((f / 10) % 10), digit_char(f % 10)]
    }
}

/// A count of thousandths written as a decimal number: the whole part,
/// then a point and the remaining digits when there is a fraction.
pub open spec fn permille_text(p: nat) -> Seq<char> {
    if p % 1000 == 0 {
        decimal(p / 1000)
    } else {
        decimal(p / 1000) + seq!['.'] + fraction_digits(p % 1000)
    }
}

fn digit_str(d: u32) -> (r: &'static str)
    requires
        d < 10,
    ensures
        r@ == seq![digit_char(d as nat)],
{
    proof {
        reveal_strlit("0");
        reveal_strlit("1");
        reveal_strlit("2");
        reveal_strlit("3");
        reveal_strlit("4");
        reveal_strlit("5");
        reveal_strlit("6");
        reveal_strlit("7");
        reveal_strlit("8");
        reveal_strlit("9");
    }
    if d == 0 {
        "0"
    } else if d == 1 {
        "1"
    } else if d == 2 {
        "2"
    } else if d == 3 {
        "3"
    } else if d == 4 {
        "4"
    } else if d == 5 {
        "5"
    } else if d == 6 {
        "6"
    } else if d == 7 {
        "7"
    } else if d == 8 {
        "8"
    } else {
        "9"
    }
}

/// Writes `p` thousandths as a decimal number (`800` as `0.8`, `1250` as `1.25`).
pub fn permille_str(p: u32) -> (r: String)
    ensures
        r@ == permille_text(p as nat),
{
    let mut s = decimal_text((p / 1000) as u64);
    let f = p % 1000;
    if f != 0 {
        proof {
            reveal_strlit(".");
        }
        s.append(".");
        s.append(digit_str(f / 100));
        if f % 100 != 0 {
            s.append(digit_str((f / 10) % 10));
            if f % 10 != 0 {
                s.append(digit_str(f % 10));
            }
        }
        assert(s@ =~= permille_text(p as nat));
    }
    s
}

} // verus!
