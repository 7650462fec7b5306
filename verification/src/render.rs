//! Numbers on paper: with a fixed number of decimals, and with commas
//! between the thousands.

use vstd::prelude::*;
use crate::num::Num;
use crate::text::{decimal, digit, spec_decimal, spec_digit};

verus! {

/// Ten to the power of `k`, for `k` up to six.
pub open spec fn spec_ten_to(k: int) -> int {
    if k <= 0 {
        1
    } else if k == 1 {
        10
    } else if k == 2 {
        100
    } else if k == 3 {
        1_000
    } else if k == 4 {
        10_000
    } else if k == 5 {
        100_000
    } else {
        1_000_000
    }
}

/// Ten to the power of `k`, for `k` up to six.
pub fn ten_to(k: u32) -> (r: u64)
    requires
        k <= 6,
    ensures
        r == spec_ten_to(k as int),
        1 <= r <= 1_000_000,
{
    if k == 0 {
        1
    } else if k == 1 {
        10
    } else if k == 2 {
        100
    } else if k == 3 {
        1_000
    } else if k == 4 {
        10_000
    } else if k == 5 {
        100_000
    } else {
        1_000_000
    }
}

/// The quotient of `n` by `d`, rounded to the nearest whole number, and to
/// the even one where two are as near.
pub open spec fn spec_round_even(n: int, d: int) -> int
    recommends
        n >= 0,
        d > 0,
{
    let q = n / d;
    let r = n % d;
    if 2 * r > d || (2 * r == d && q % 2 == 1) {
        q + 1
    } else {
        q
    }
}

/// The quotient of `n` by `d`, rounded to the nearest whole number, and to
/// the even one where two are as near.
pub fn round_even(n: u64, d: u64) -> (r: u64)
    requires
        0 < d <= 1_000_000,
    ensures
        r == spec_round_even(n as int, d as int),
{
    let q = n / d;
    let r = n % d;
    if 2 * r > d || (2 * r == d && q % 2 == 1) {
        assert(q < u64::MAX) by {
            assert(q * d <= n) by (nonlinear_arith)
                requires
                    q == n / d,
                    d > 0,
            ;
            assert(q * 2 <= q * d) by (nonlinear_arith)
                requires
                    d >= 2,
                    q >= 0,
            ;
        }
        q + 1
    } else {
        q
    }
}

/// The last `width` digits of a number, with zeros where it has fewer.
pub open spec fn spec_padded(n: nat, width: nat) -> Seq<char>
    decreases width,
{
    if width == 0 {
        Seq::empty()
    } else {
        spec_padded(n / 10, (width - 1) as nat) + spec_digit((n % 10) as int)
    }
}

/// The last `width` digits of a number, with zeros where it has fewer.
pub fn padded(n: u64, width: u32) -> (r: String)
    ensures
        r@ == spec_padded(n as nat, width as nat),
    decreases width,
{
    if width == 0 {
        String::new()
    } else {
        let mut out = padded(n / 10, width - 1);
        out.append(digit(n % 10));
        out
    }
}

/// A whole number in digits, in groups of three from the right, with commas
/// between the groups.
pub open spec fn spec_grouped(n: nat) -> Seq<char>
    decreases n,
{
    if n < 1000 {
        spec_decimal(n)
    } else {
        spec_grouped(n / 1000) + ","@ + spec_padded(n % 1000, 3)
    }
}

/// Calls `format_num::NumberFormat::format` with the pattern `,.0`, which
/// asks for no decimals and for grouping. Of a whole number that a `u32`
/// holds, the crate writes the digits in groups of three from the right,
/// with commas between the groups: that is claimed here, and not proved.
#[verifier::external_body]
fn group_thousands(n: u32) -> (r: String)
    ensures
        r@ == spec_grouped(n as nat),
{
    format_num::NumberFormat::new().format(",.0", n)
}

/// A whole number in digits, in groups of three from the right, with commas
/// between the groups.
pub fn grouped(n: u64) -> (r: String)
    ensures
        r@ == spec_grouped(n as nat),
    decreases n,
{
    if n <= u32::MAX as u64 {
        group_thousands(n as u32)
    } else {
        let mut out = grouped(n / 1000);
        out.append(",");
        let last = padded(n % 1000, 3);
        out.append(last.as_str());
        out
    }
}

/// The size of a number, rounded to `places` decimals and counted in units
/// of the last of them.
pub open spec fn spec_rounded(micro: int, places: int) -> int {
    spec_round_even(if micro < 0 { -micro } else { micro }, spec_ten_to(6 - places))
}

/// The decimals of a number so rounded, behind their point; nothing where
/// there are none.
pub open spec fn spec_decimals(rounded: int, places: int) -> Seq<char> {
    if places > 0 {
        "."@ + spec_padded((rounded % spec_ten_to(places)) as nat, places as nat)
    } else {
        Seq::empty()
    }
}

/// A number with `places` decimals, rounded to the nearest and to the even
/// one in the middle, with a minus sign before a number below zero; `NaN`
/// for an undefined one.
pub open spec fn spec_fixed(x: Num, places: int) -> Seq<char> {
    match x {
        Num::Undefined => "NaN"@,
        Num::Micro(m) => {
            let rounded = spec_rounded(m as int, places);
            (if m < 0 {
                "-"@
            } else {
                Seq::empty()
            }) + spec_decimal((rounded / spec_ten_to(places)) as nat) + spec_decimals(
                rounded,
                places,
            )
        },
    }
}

/// A number with `places` decimals and with commas between the thousands,
/// rounded to the nearest and to the even one in the middle. The minus sign
/// stands only before what is not zero once rounded. `NaN` for an undefined
/// number.
pub open spec fn spec_grouped_fixed(x: Num, places: int) -> Seq<char> {
    match x {
        Num::Undefined => "NaN"@,
        Num::Micro(m) => {
            let rounded = spec_rounded(m as int, places);
            (if m < 0 && rounded != 0 {
                "-"@
            } else {
                Seq::empty()
            }) + spec_grouped((rounded / spec_ten_to(places)) as nat) + spec_decimals(
                rounded,
                places,
            )
        },
    }
}

/// The size of a number, rounded to `places` decimals and counted in units
/// of the last of them.
fn rounded(m: i64, places: u32) -> (r: u64)
    requires
        places <= 6,
    ensures
        r == spec_rounded(m as int, places as int),
{
    let size: u64 = if m < 0 {
        (-(m as i128)) as u64
    } else {
        m as u64
    };
    round_even(size, ten_to(6 - places))
}

/// The decimals of a number so rounded, behind their point; nothing where
/// there are none.
fn decimals(rounded: u64, places: u32) -> (r: String)
    requires
        places <= 6,
    ensures
        r@ == spec_decimals(rounded as int, places as int),
{
    if places > 0 {
        let mut out = ".".to_owned();
        let digits = padded(rounded % ten_to(places), places);
        out.append(digits.as_str());
        out
    } else {
        String::new()
    }
}

/// A number with `places` decimals, six at most, rounded to the nearest and
/// to the even one in the middle, with a minus sign before a number below
/// zero; `NaN` for an undefined one.
pub fn fixed(x: Num, places: u32) -> (r: String)
    requires
        places <= 6,
    ensures
        r@ == spec_fixed(x, places as int),
{
    match x {
        Num::Undefined => "NaN".to_owned(),
        Num::Micro(m) => {
            let q = rounded(m, places);
            let mut out = if m < 0 {
                "-".to_owned()
            } else {
                String::new()
            };
            let whole = decimal(q / ten_to(places));
            out.append(whole.as_str());
            let tail = decimals(q, places);
            out.append(tail.as_str());
            out
        },
    }
}

/// A number with `places` decimals, six at most, and with commas between
/// the thousands, rounded to the nearest and to the even one in the middle.
/// The minus sign stands only before what is not zero once rounded. `NaN`
/// for an undefined number.
pub fn grouped_fixed(x: Num, places: u32) -> (r: String)
    requires
        places <= 6,
    ensures
        r@ == spec_grouped_fixed(x, places as int),
{
    match x {
        Num::Undefined => "NaN".to_owned(),
        Num::Micro(m) => {
            let q = rounded(m, places);
            let mut out = if m < 0 && q != 0 {
                "-".to_owned()
            } else {
                String::new()
            };
            let whole = grouped(q / ten_to(places));
            out.append(whole.as_str());
            let tail = decimals(q, places);
            out.append(tail.as_str());
            out
        },
    }
}

} // verus!
