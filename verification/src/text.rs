//! Rendering of the displayed equation.
//!
//! A coefficient in units of `1 / COEFF_SCALE` is printed with two
//! decimal places, rounded to the nearest hundredth with ties away from
//! zero, and the ten terms are joined in monomial order into
//! `"c0 x^3 + c1 x^2 y + c2 x y^2 + c3 y^3 + c4 x^2 + c5 x y + c6 y^2 +
//! c7 x + c8 y + c9 = 0"`.

use crate::fit::COEFF_SCALE;
use vstd::prelude::*;

verus! {

/// The decimal digit `d` as a one-character string view.
pub open spec fn spec_digit(d: int) -> Seq<char> {
    if d == 0 {
        "0"@
    } else if d == 1 {
        "1"@
    } else if d == 2 {
        "2"@
    } else if d == 3 {
        "3"@
    } else if d == 4 {
        "4"@
    } else if d == 5 {
        "5"@
    } else if d == 6 {
        "6"@
    } else if d == 7 {
        "7"@
    } else if d == 8 {
        "8"@
    } else {
        "9"@
    }
}

/// Magnitude of the coefficient in hundredths, rounded to nearest with
/// ties away from zero.
pub open spec fn spec_centi(c: int) -> int {
    (crate::fit::mag(c) + 5000) / 10_000
}

/// The two-decimal rendering of a coefficient: an optional minus sign,
/// the integer digit, a point, and two fractional digits.
pub open spec fn spec_decimal(c: int) -> Seq<char> {
    let sign: Seq<char> = if c < 0 {
        "-"@
    } else {
        Seq::<char>::empty()
    };
    sign + spec_digit(spec_centi(c) / 100) + "."@ + spec_digit((spec_centi(c) % 100) / 10)
        + spec_digit(spec_centi(c) % 10)
}

/// The full equation line for a normalized coefficient vector.
pub open spec fn spec_equation_text(cs: Seq<i64>) -> Seq<char> {
    spec_decimal(cs[0] as int) + " x^3 + "@ + spec_decimal(cs[1] as int) + " x^2 y + "@
        + spec_decimal(cs[2] as int) + " x y^2 + "@ + spec_decimal(cs[3] as int) + " y^3 + "@
        + spec_decimal(cs[4] as int) + " x^2 + "@ + spec_decimal(cs[5] as int) + " x y + "@
        + spec_decimal(cs[6] as int) + " y^2 + "@ + spec_decimal(cs[7] as int) + " x + "@
        + spec_decimal(cs[8] as int) + " y + "@ + spec_decimal(cs[9] as int) + " = 0"@
}

/// One decimal digit as a string slice.
fn digit_str(d: u64) -> (r: &'static str)
    requires
        d < 10,
    ensures
        r@ == spec_digit(d as int),
{
    if d == 0 {
        "0"
    } else if d == 1 {
        "1"
    } else if d == 2 {
        "2"
    } else if d == 3 {
        "3"
    } else if d == 4 {
        "4"
    } else if d == 5 {
        "5"
    } else if d == 6 {
        "6"
    } else if d == 7 {
        "7"
    } else if d == 8 {
        "8"
    } else {
        "9"
    }
}

/// Appends the two-decimal rendering of one coefficient.
fn push_decimal(s: &mut String, c: i64)
    requires
        -COEFF_SCALE <= c <= COEFF_SCALE,
    ensures
        final(s)@ == old(s)@ + spec_decimal(c as int),
{
    if c < 0 {
        s.append("-");
    }
    let a: u64 = if c >= 0 {
        c as u64
    } else {
        (-c) as u64
    };
    let centi: u64 = (a + 5000) / 10_000;
    assert(centi == spec_centi(c as int));
    assert(centi <= 100);
    s.append(digit_str(centi / 100));
    s.append(".");
    s.append(digit_str((centi % 100) / 10));
    s.append(digit_str(centi % 10));
}

/// Renders the equation line for a normalized coefficient vector, with
/// each coefficient at two decimal places.
pub fn equation_text(c: &Vec<i64>) -> (r: String)
    requires
        c@.len() == 10,
        forall|j: int| 0 <= j < 10 ==> -COEFF_SCALE <= #[trigger] c@[j] <= COEFF_SCALE,
    ensures
        r@ == spec_equation_text(c@),
{
    let mut s: String = String::new();
    push_decimal(&mut s, c[0]);
    s.append(" x^3 + ");
    push_decimal(&mut s, c[1]);
    s.append(" x^2 y + ");
    push_decimal(&mut s, c[2]);
    s.append(" x y^2 + ");
    push_decimal(&mut s, c[3]);
    s.append(" y^3 + ");
    push_decimal(&mut s, c[4]);
    s.append(" x^2 + ");
    push_decimal(&mut s, c[5]);
    s.append(" x y + ");
    push_decimal(&mut s, c[6]);
    s.append(" y^2 + ");
    push_decimal(&mut s, c[7]);
    s.append(" x + ");
    push_decimal(&mut s, c[8]);
    s.append(" y + ");
    push_decimal(&mut s, c[9]);
    s.append(" = 0");
    proof {
        assert(s@ =~= spec_equation_text(c@));
    }
    s
}

} // verus!
