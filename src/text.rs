//! Decimal rendering of numbers for messages.
use vstd::prelude::*;

verus! {

/// The text of one decimal digit.
pub open spec fn digit_text(d: nat) -> Seq<char> {
    if d == 0 {
        "0"@
    } else if d == 1 {
        "1"@
    } else if d == 2 {
        "2"@
    } else if d == 3 {
        "3"@
    } else if d == 4 {
        "4"@
    } else if d == 5 {
        "5"@
    } else if d == 6 {
        "6"@
    } else if d == 7 {
        "7"@
    } else if d == 8 {
        "8"@
    } else {
        "9"@
    }
}

/// Decimal notation of `n`, without leading zeros.
pub open spec fn decimal_of(n: nat) -> Seq<char>
    decreases n,
{
    if n < 10 {
        digit_text(n)
    } else {
        decimal_of(n / 10) + digit_text(n % 10)
    }
}

fn digit(d: u64) -> (r: &'static str)
    requires
        d < 10,
    ensures
        r@ == digit_text(d as nat),
{
    if d == 0 {
        "0"
    } else if d == 1 {
        "1"
    } else if d == 2 {
        "2"
    } else if d == 3 {
        "3"
    } else if d == 4 {
        "4"
    } else if d == 5 {
        "5"
    } else if d == 6 {
        "6"
    } else if d == 7 {
        "7"
    } else if d == 8 {
        "8"
    } else {
        "9"
    }
}

/// Decimal notation of `n`.
pub fn decimal(n: u64) -> (r: String)
    ensures
        r@ == decimal_of(n as nat),
    decreases n,
{
    if n < 10 {
        String::from_str(digit(n))
    } else {
        let mut r = decimal(n / 10);
        r.append(digit(n % 10));
        r
    }
}

/// Decimal notation of a signed number, with a minus sign when negative.
pub open spec fn signed_decimal_of(v: int) -> Seq<char> {
    if v < 0 {
        "-"@ + decimal_of((-v) as nat)
    } else {
        decimal_of(v as nat)
    }
}

/// Decimal notation of `v`, with a minus sign when negative.
pub fn signed_decimal(v: i32) -> (r: String)
    ensures
        r@ == signed_decimal_of(v as int),
{
    if v < 0 {
        let magnitude: i64 = -(v as i64);
        let mut r = String::from_str("-");
        r.append(decimal(magnitude as u64).as_str());
        r
    } else {
        decimal(v as u64)
    }
}

/// `prefix` followed by `detail`.
pub fn joined(prefix: &str, detail: &str) -> (r: String)
    ensures
        r@ == prefix@ + detail@,
{
    let mut r = String::from_str(prefix);
    r.append(detail);
    r
}

} // verus!
