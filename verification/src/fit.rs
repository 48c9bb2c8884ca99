//! The cofactor structure of the curve fit.
//!
//! The fitted curve is the zero set of
//! `F(x, y) = c0*x^3 + c1*x^2*y + c2*x*y^2 + c3*y^3 + c4*x^2 + c5*x*y +
//! c6*y^2 + c7*x + c8*y + c9`.  Stacking the ten monomial values of each
//! of the nine points as the columns of a 10 by 9 matrix, the coefficient
//! vector is (up to scale) the null vector of the transpose, obtained by
//! cofactor expansion: `c_j` is `(-1)^j` times the determinant of the
//! matrix with row `j` removed.  This module builds the monomial columns,
//! applies the alternating signs to the ten minor determinants, and
//! normalizes the result so that the largest coefficient magnitude is
//! exactly `COEFF_SCALE`.

use crate::geom::Point;
use vstd::arithmetic::div_mod::lemma_div_is_ordered;
use vstd::arithmetic::div_mod::lemma_div_multiples_vanish;
use vstd::arithmetic::div_mod::lemma_div_pos_is_pos;
use vstd::prelude::*;

verus! {

/// Number of fixed-point units per coefficient unit: a normalized
/// coefficient vector has largest magnitude exactly `COEFF_SCALE`.
pub const COEFF_SCALE: i64 = 1_000_000;

/// Bound on the minor determinant values accepted by `normalize` and
/// `coefficients_from_minors`; keeps the scaling arithmetic in `i64`.
pub const MAX_MINOR: i64 = 1_000_000_000_000;

/// Magnitude of an integer.
pub open spec fn mag(v: int) -> int {
    if v >= 0 {
        v
    } else {
        -v
    }
}

/// The monomial column of a point, in the order
/// `x^3, x^2*y, x*y^2, y^3, x^2, x*y, y^2, x, y, 1`.
///
/// Coordinates are in units of `1 / COORD_SCALE`, so each monomial is
/// scaled here to units of `1 / COORD_SCALE^3`: the degree-two rows carry
/// an extra factor `1000`, the degree-one rows `1000^2`, the constant row
/// `1000^3`.  This uniform column scale leaves the fitted curve
/// unchanged; a consumer dividing every entry by `COORD_SCALE^3` obtains
/// the monomials of the continuous model.
pub open spec fn spec_monomials(p: Point) -> Seq<int> {
    seq![
        p.x * p.x * p.x,
        p.x * p.x * p.y,
        p.x * p.y * p.y,
        p.y * p.y * p.y,
        p.x * p.x * 1000,
        p.x * p.y * 1000,
        p.y * p.y * 1000,
        p.x * 1_000_000,
        p.y * 1_000_000,
        1_000_000_000int,
    ]
}

/// Builds the monomial column of one in-bounds point.
pub fn monomials(p: Point) -> (r: Vec<i128>)
    requires
        p.in_bounds(),
    ensures
        r@.len() == 10,
        forall|j: int| 0 <= j < 10 ==> r@[j] == spec_monomials(p)[j],
{
    let x: i128 = p.x as i128;
    let y: i128 = p.y as i128;
    proof {
        lemma_monomial_bounds(x as int, y as int);
    }
    let mut v: Vec<i128> = Vec::new();
    v.push(x * x * x);
    v.push(x * x * y);
    v.push(x * y * y);
    v.push(y * y * y);
    v.push(x * x * 1000);
    v.push(x * y * 1000);
    v.push(y * y * 1000);
    v.push(x * 1_000_000);
    v.push(y * 1_000_000);
    v.push(1_000_000_000);
    proof {
        assert forall|j: int| 0 <= j < 10 implies v@[j] == spec_monomials(p)[j] by {
            assert(spec_monomials(p).len() == 10);
        }
    }
    v
}

/// Cubes and mixed products of coordinates bounded by `MAX_COORD` stay
/// far inside the `i128` range.
proof fn lemma_monomial_bounds(x: int, y: int)
    requires
        -1_000_000_000 <= x <= 1_000_000_000,
        -1_000_000_000 <= y <= 1_000_000_000,
    ensures
        -0x1_0000_0000_0000_0000_0000_0000 <= x * x * x <= 0x1_0000_0000_0000_0000_0000_0000,
        -0x1_0000_0000_0000_0000_0000_0000 <= x * x * y <= 0x1_0000_0000_0000_0000_0000_0000,
        -0x1_0000_0000_0000_0000_0000_0000 <= x * y * y <= 0x1_0000_0000_0000_0000_0000_0000,
        -0x1_0000_0000_0000_0000_0000_0000 <= y * y * y <= 0x1_0000_0000_0000_0000_0000_0000,
        -0x1_0000_0000_0000_0000_0000_0000 <= x * x * 1000 <= 0x1_0000_0000_0000_0000_0000_0000,
        -0x1_0000_0000_0000_0000_0000_0000 <= x * y * 1000 <= 0x1_0000_0000_0000_0000_0000_0000,
        -0x1_0000_0000_0000_0000_0000_0000 <= y * y * 1000 <= 0x1_0000_0000_0000_0000_0000_0000,
{
    let b: int = 1_000_000_000;
    assert((-b) * b <= x * x <= b * b && (-b) * b <= x * y <= b * b && (-b) * b <= y * y <= b
        * b) by (nonlinear_arith)
        requires
            -b <= x <= b,
            -b <= y <= b,
    ;
    assert forall|u: int, v: int|
        (-b) * b <= u <= b * b && -b <= v <= b implies (-b) * b * b <= #[trigger] (u * v) <= b * b
        * b by {
        assert((-b) * b * b <= u * v <= b * b * b) by (nonlinear_arith)
            requires
                (-b) * b <= u <= b * b,
                -b <= v <= b,
                b == 1_000_000_000,
        ;
    }
    assert(x * x * x == (x * x) * x && x * x * y == (x * x) * y && x * y * y == (x * y) * y && y
        * y * y == (y * y) * y);
    assert(x * x * 1000 == (x * x) * 1000 && x * y * 1000 == (x * y) * 1000 && y * y * 1000 == (y
        * y) * 1000);
}

/// The sign `(-1)^j` applied to the minor determinant of row `j`.
pub open spec fn spec_signed_minor(minors: Seq<i64>, j: int) -> int {
    if j % 2 == 0 {
        minors[j] as int
    } else {
        -(minors[j] as int)
    }
}

/// Applies the alternating cofactor signs to the ten minor determinants:
/// the output coefficient `c_j` is `(-1)^j` times `minors[j]`, positive
/// at `j == 0`.
pub fn coefficients_from_minors(minors: &Vec<i64>) -> (r: Vec<i64>)
    requires
        minors@.len() == 10,
        forall|j: int| 0 <= j < 10 ==> -MAX_MINOR <= #[trigger] minors@[j] <= MAX_MINOR,
    ensures
        r@.len() == 10,
        forall|j: int| 0 <= j < 10 ==> #[trigger] r@[j] == spec_signed_minor(minors@, j),
        forall|j: int| 0 <= j < 10 ==> -MAX_MINOR <= #[trigger] r@[j] <= MAX_MINOR,
{
    let mut v: Vec<i64> = Vec::new();
    let mut j: usize = 0;
    while j < 10
        invariant
            j <= 10,
            minors@.len() == 10,
            forall|q: int| 0 <= q < 10 ==> -MAX_MINOR <= #[trigger] minors@[q] <= MAX_MINOR,
            v@.len() == j,
            forall|q: int| 0 <= q < j ==> #[trigger] v@[q] == spec_signed_minor(minors@, q),
        decreases 10 - j,
    {
        if j % 2 == 0 {
            v.push(minors[j]);
        } else {
            v.push(-minors[j]);
        }
        j += 1;
    }
    v
}

/// Largest coefficient magnitude of the vector.
pub open spec fn spec_max_mag(s: Seq<i64>) -> int
    decreases s.len(),
{
    if s.len() == 0 {
        0
    } else {
        let rest = spec_max_mag(s.drop_last());
        if mag(s.last() as int) > rest {
            mag(s.last() as int)
        } else {
            rest
        }
    }
}

/// One coefficient scaled so that magnitude `m` becomes `COEFF_SCALE`,
/// rounded toward zero.
pub open spec fn spec_scaled(v: int, m: int) -> int {
    if v >= 0 {
        (v * COEFF_SCALE) / m
    } else {
        -((-v * COEFF_SCALE) / m)
    }
}

/// The largest magnitude of the sequence bounds every entry and is
/// attained by some entry.
pub proof fn lemma_max_abs_properties(s: Seq<i64>)
    ensures
        forall|i: int| 0 <= i < s.len() ==> mag(#[trigger] s[i] as int) <= spec_max_mag(s),
        s.len() > 0 ==> exists|i: int| 0 <= i < s.len() && mag(#[trigger] s[i] as int)
            == spec_max_mag(s),
        spec_max_mag(s) >= 0,
    decreases s.len(),
{
    if s.len() > 0 {
        lemma_max_abs_properties(s.drop_last());
        assert forall|i: int| 0 <= i < s.len() implies mag(#[trigger] s[i] as int) <= spec_max_mag(
            s,
        ) by {
            if i < s.len() - 1 {
                assert(s[i] == s.drop_last()[i]);
            }
        }
        if mag(s.last() as int) >= spec_max_mag(s.drop_last()) {
            assert(mag(s[s.len() - 1] as int) == spec_max_mag(s));
        } else {
            assert(spec_max_mag(s.drop_last()) > 0);
            assert(s.drop_last().len() > 0) by {
                if s.drop_last().len() == 0 {
                    assert(spec_max_mag(s.drop_last()) == 0);
                }
            }
            let i = choose|i: int| 0 <= i < s.drop_last().len() && mag(
                #[trigger] s.drop_last()[i] as int,
            ) == spec_max_mag(s.drop_last());
            assert(s[i] == s.drop_last()[i]);
            assert(mag(s[i] as int) == spec_max_mag(s));
        }
    }
}

/// Normalizes a coefficient vector: every entry is scaled by
/// `COEFF_SCALE / m` where `m` is the largest magnitude, rounded toward
/// zero, so that afterwards the largest magnitude is exactly
/// `COEFF_SCALE`.  An all-zero vector is returned unchanged.
pub fn normalize(c: &Vec<i64>) -> (r: Vec<i64>)
    requires
        c@.len() == 10,
        forall|j: int| 0 <= j < 10 ==> -MAX_MINOR <= #[trigger] c@[j] <= MAX_MINOR,
    ensures
        r@.len() == 10,
        spec_max_mag(c@) == 0 ==> r@ == c@,
        spec_max_mag(c@) > 0 ==> forall|j: int| 0 <= j < 10 ==> #[trigger] r@[j] == spec_scaled(
            c@[j] as int,
            spec_max_mag(c@),
        ),
        spec_max_mag(c@) > 0 ==> forall|j: int| 0 <= j < 10 ==> -COEFF_SCALE <= #[trigger] r@[j]
            <= COEFF_SCALE,
        spec_max_mag(c@) > 0 ==> exists|j: int| 0 <= j < 10 && mag(#[trigger] r@[j] as int)
            == COEFF_SCALE,
{
    proof {
        lemma_max_abs_properties(c@);
    }
    let m: i64 = max_mag(c);
    if m == 0 {
        let mut v: Vec<i64> = Vec::new();
        let mut j: usize = 0;
        while j < 10
            invariant
                j <= 10,
                c@.len() == 10,
                v@.len() == j,
                forall|q: int| 0 <= q < j ==> #[trigger] v@[q] == c@[q],
            decreases 10 - j,
        {
            v.push(c[j]);
            j += 1;
        }
        proof {
            assert(v@ =~= c@);
        }
        v
    } else {
        let ghost gm: int = spec_max_mag(c@);
        let mut v: Vec<i64> = Vec::new();
        let mut j: usize = 0;
        while j < 10
            invariant
                j <= 10,
                c@.len() == 10,
                forall|q: int| 0 <= q < 10 ==> -MAX_MINOR <= #[trigger] c@[q] <= MAX_MINOR,
                forall|q: int| 0 <= q < 10 ==> mag(#[trigger] c@[q] as int) <= gm,
                0 < m <= MAX_MINOR,
                m == gm,
                v@.len() == j,
                forall|q: int| 0 <= q < j ==> #[trigger] v@[q] == spec_scaled(c@[q] as int, gm),
                forall|q: int| 0 <= q < j ==> -COEFF_SCALE <= #[trigger] v@[q] <= COEFF_SCALE,
            decreases 10 - j,
        {
            let e: i64 = c[j];
            let a: u64 = if e >= 0 {
                e as u64
            } else {
                (-e) as u64
            };
            proof {
                assert(e == c@[j as int]);
                assert(a <= 1_000_000_000_000);
                assert(a * (COEFF_SCALE as u64) <= 1_000_000_000_000_000_000) by (nonlinear_arith)
                    requires
                        a <= 1_000_000_000_000,
                ;
            }
            let q: u64 = (a * (COEFF_SCALE as u64)) / (m as u64);
            proof {
                lemma_scale_bounds(a as int, m as int);
            }
            let s: i64 = if e >= 0 {
                q as i64
            } else {
                -(q as i64)
            };
            v.push(s);
            j += 1;
        }
        proof {
            let i = choose|i: int| 0 <= i < c@.len() && mag(#[trigger] c@[i] as int) == gm;
            lemma_scale_exact(c@[i] as int, gm);
            assert(mag(v@[i] as int) == COEFF_SCALE);
        }
        v
    }
}

/// Scaling a magnitude that is at most `m` by `COEFF_SCALE / m` yields
/// at most `COEFF_SCALE`.
proof fn lemma_scale_bounds(a: int, m: int)
    requires
        0 <= a <= m,
        0 < m,
    ensures
        0 <= (a * COEFF_SCALE) / m <= COEFF_SCALE,
{
    lemma_div_pos_is_pos(a * COEFF_SCALE, m);
    assert(0 <= a * COEFF_SCALE) by (nonlinear_arith)
        requires
            0 <= a,
    ;
    assert(a * COEFF_SCALE <= m * COEFF_SCALE) by (nonlinear_arith)
        requires
            a <= m,
    ;
    lemma_div_is_ordered(a * COEFF_SCALE, m * COEFF_SCALE, m);
    lemma_div_multiples_vanish(COEFF_SCALE as int, m);
}

/// An entry whose magnitude is exactly the maximum scales to exactly
/// `COEFF_SCALE` in magnitude.
proof fn lemma_scale_exact(v: int, m: int)
    requires
        0 < m,
        mag(v) == m,
    ensures
        mag(spec_scaled(v, m)) == COEFF_SCALE,
{
    lemma_div_multiples_vanish(COEFF_SCALE as int, m);
    if v >= 0 {
        assert(v * COEFF_SCALE == COEFF_SCALE * m) by (nonlinear_arith)
            requires
                v == m,
        ;
    } else {
        assert(-v * COEFF_SCALE == COEFF_SCALE * m) by (nonlinear_arith)
            requires
                -v == m,
        ;
    }
}

/// Largest magnitude of the ten entries.
fn max_mag(c: &Vec<i64>) -> (r: i64)
    requires
        c@.len() == 10,
        forall|j: int| 0 <= j < 10 ==> -MAX_MINOR <= #[trigger] c@[j] <= MAX_MINOR,
    ensures
        r == spec_max_mag(c@),
        0 <= r <= MAX_MINOR,
{
    proof {
        lemma_max_abs_properties(c@);
    }
    let mut m: i64 = 0;
    let mut j: usize = 0;
    while j < 10
        invariant
            j <= 10,
            c@.len() == 10,
            forall|q: int| 0 <= q < 10 ==> -MAX_MINOR <= #[trigger] c@[q] <= MAX_MINOR,
            m == spec_max_mag(c@.take(j as int)),
            0 <= m <= MAX_MINOR,
        decreases 10 - j,
    {
        let e: i64 = c[j];
        let a: i64 = if e >= 0 {
            e
        } else {
            -e
        };
        proof {
            assert(c@.take(j + 1 as int).drop_last() =~= c@.take(j as int));
            assert(c@.take(j + 1 as int).last() == c@[j as int]);
        }
        if a > m {
            m = a;
        }
        j += 1;
    }
    proof {
        assert(c@.take(10) =~= c@);
    }
    m
}

} // verus!
