//! Four-lane fixed-point arithmetic.
//!
//! A lane value is a signed 64-bit integer that counts 65536ths. The
//! arithmetic is partial: an operation whose exact result leaves the range of
//! a lane, or that divides by zero, has no result. The lane-wise operations
//! themselves are `simba`'s; what is verified here is that they are called
//! only where every lane has a result.

use simba::simd::AutoSimd;
use simba::simd::SimdValue;
use vstd::prelude::*;

verus! {

/// Number of constraint instances processed together.
pub const SIMD_WIDTH: usize = 4;

/// The fixed-point representation of one.
pub const ONE: i64 = 65536;

/// Four lane values, lane 0 first.
pub type Lanes = [i64; 4];

/// Whether an exact integer is representable in a lane.
pub open spec fn in_range(x: int) -> bool {
    i64::MIN <= x <= i64::MAX
}

/// Integer quotient rounded toward zero.
pub open spec fn trunc_div(x: int, d: int) -> int
    recommends
        d != 0,
{
    if x >= 0 && d > 0 {
        x / d
    } else if x < 0 && d < 0 {
        (-x) / (-d)
    } else if x < 0 {
        -((-x) / d)
    } else {
        -(x / (-d))
    }
}

/// Fixed-point sum.
pub open spec fn fx_add(a: i64, b: i64) -> Option<i64> {
    if in_range(a + b) {
        Some((a + b) as i64)
    } else {
        None
    }
}

/// Fixed-point difference.
pub open spec fn fx_sub(a: i64, b: i64) -> Option<i64> {
    if in_range(a - b) {
        Some((a - b) as i64)
    } else {
        None
    }
}

/// Fixed-point negation.
pub open spec fn fx_neg(a: i64) -> Option<i64> {
    if in_range(-a) {
        Some((-a) as i64)
    } else {
        None
    }
}

/// Fixed-point product: the exact product of the two integers, which has to
/// be representable, brought back to 65536ths by rounding toward zero.
pub open spec fn fx_mul(a: i64, b: i64) -> Option<i64> {
    if in_range(a * b) {
        Some(trunc_div(a * b, ONE as int) as i64)
    } else {
        None
    }
}

/// Fixed-point quotient: the dividend scaled by 65536, which has to be
/// representable, divided by the divisor and rounded toward zero.
pub open spec fn fx_div(a: i64, b: i64) -> Option<i64> {
    if b != 0 && in_range(a * ONE) && in_range(trunc_div(a * ONE, b as int)) {
        Some(trunc_div(a * ONE, b as int) as i64)
    } else {
        None
    }
}

/// Sum of two values that may be missing.
pub open spec fn sum(a: Option<i64>, b: Option<i64>) -> Option<i64> {
    match (a, b) {
        (Some(x), Some(y)) => fx_add(x, y),
        _ => None,
    }
}

/// Difference of two values that may be missing.
pub open spec fn diff(a: Option<i64>, b: Option<i64>) -> Option<i64> {
    match (a, b) {
        (Some(x), Some(y)) => fx_sub(x, y),
        _ => None,
    }
}

/// Negation of a value that may be missing.
pub open spec fn minus(a: Option<i64>) -> Option<i64> {
    match a {
        Some(x) => fx_neg(x),
        None => None,
    }
}

/// Product of two values that may be missing.
pub open spec fn prod(a: Option<i64>, b: Option<i64>) -> Option<i64> {
    match (a, b) {
        (Some(x), Some(y)) => fx_mul(x, y),
        _ => None,
    }
}

/// Quotient of two values that may be missing.
pub open spec fn quot(a: Option<i64>, b: Option<i64>) -> Option<i64> {
    match (a, b) {
        (Some(x), Some(y)) => fx_div(x, y),
        _ => None,
    }
}

/// Whether something holds of each of the four lanes.
pub open spec fn all_lanes(f: spec_fn(int) -> bool) -> bool {
    f(0) && f(1) && f(2) && f(3)
}

/// Whether something holds of one of the four lanes at least.
pub open spec fn some_lane(f: spec_fn(int) -> bool) -> bool {
    f(0) || f(1) || f(2) || f(3)
}

/// A wide value with `x` in every lane, made by `simba`'s
/// `SimdValue::splat` on `AutoSimd<[i64; 4]>`.
#[verifier::external_body]
fn wide_splat(x: i64) -> (r: Lanes)
    ensures
        r[0] == x,
        r[1] == x,
        r[2] == x,
        r[3] == x,
{
    AutoSimd::<[i64; 4]>::splat(x).0
}

/// Lane `i` of a wide value, read by `simba`'s `SimdValue::extract` on
/// `AutoSimd<[i64; 4]>`, which indexes the lanes and so needs `i` below
/// four.
#[verifier::external_body]
pub(crate) fn wide_extract(a: &Lanes, i: usize) -> (r: i64)
    requires
        i < 4,
    ensures
        r == a[i as int],
{
    AutoSimd(*a).extract(i)
}

/// Lane-wise sum by `simba`'s `Add` on `AutoSimd<[i64; 4]>`, which applies
/// the `+` of `i64` to each pair of lanes; no lane may overflow.
#[verifier::external_body]
fn wide_add(a: &Lanes, b: &Lanes) -> (r: Lanes)
    requires
        all_lanes(|i: int| in_range(a[i] + b[i])),
    ensures
        all_lanes(|i: int| r[i] == a[i] + b[i]),
{
    (AutoSimd(*a) + AutoSimd(*b)).0
}

/// Lane-wise difference by `simba`'s `Sub` on `AutoSimd<[i64; 4]>`, which
/// applies the `-` of `i64` to each pair of lanes; no lane may overflow.
#[verifier::external_body]
fn wide_sub(a: &Lanes, b: &Lanes) -> (r: Lanes)
    requires
        all_lanes(|i: int| in_range(a[i] - b[i])),
    ensures
        all_lanes(|i: int| r[i] == a[i] - b[i]),
{
    (AutoSimd(*a) - AutoSimd(*b)).0
}

/// Lane-wise product by `simba`'s `Mul` on `AutoSimd<[i64; 4]>`, which
/// applies the `*` of `i64` to each pair of lanes; no lane may overflow.
#[verifier::external_body]
fn wide_mul(a: &Lanes, b: &Lanes) -> (r: Lanes)
    requires
        all_lanes(|i: int| in_range(a[i] * b[i])),
    ensures
        all_lanes(|i: int| r[i] == a[i] * b[i]),
{
    (AutoSimd(*a) * AutoSimd(*b)).0
}

/// Lane-wise quotient by `simba`'s `Div` on `AutoSimd<[i64; 4]>`, which
/// applies the `/` of `i64` to each pair of lanes: the quotient rounded
/// toward zero. No divisor may be zero and no quotient may overflow.
#[verifier::external_body]
fn wide_div(a: &Lanes, b: &Lanes) -> (r: Lanes)
    requires
        all_lanes(|i: int| b[i] != 0 && in_range(trunc_div(a[i] as int, b[i] as int))),
    ensures
        all_lanes(|i: int| r[i] == trunc_div(a[i] as int, b[i] as int)),
{
    (AutoSimd(*a) / AutoSimd(*b)).0
}

/// Lane-wise negation by `simba`'s `Neg` on `AutoSimd<[i64; 4]>`, which
/// applies the unary `-` of `i64` to each lane; no lane may overflow.
#[verifier::external_body]
fn wide_neg(a: &Lanes) -> (r: Lanes)
    requires
        all_lanes(|i: int| in_range(-a[i])),
    ensures
        all_lanes(|i: int| r[i] == -a[i]),
{
    (-AutoSimd(*a)).0
}

fn add_fits(x: i64, y: i64) -> (r: bool)
    ensures
        r == fx_add(x, y) is Some,
{
    x.checked_add(y).is_some()
}

fn sub_fits(x: i64, y: i64) -> (r: bool)
    ensures
        r == fx_sub(x, y) is Some,
{
    x.checked_sub(y).is_some()
}

fn mul_fits(x: i64, y: i64) -> (r: bool)
    ensures
        r == in_range(x * y),
{
    x.checked_mul(y).is_some()
}

fn div_fits(x: i64, y: i64) -> (r: bool)
    ensures
        r == (y != 0 && in_range(trunc_div(x as int, y as int))),
{
    x.checked_div(y).is_some()
}

/// A wide value with `x` in every lane.
pub fn lanes_splat(x: i64) -> (r: Lanes)
    ensures
        all_lanes(|i: int| r[i] == x),
{
    wide_splat(x)
}

/// Lane-wise fixed-point sum, where every lane has one.
pub fn lanes_add(a: &Lanes, b: &Lanes) -> (r: Option<Lanes>)
    ensures
        match r {
            Some(v) => all_lanes(|i: int| fx_add(a[i], b[i]) == Some(v[i])),
            None => some_lane(|i: int| fx_add(a[i], b[i]) is None),
        },
{
    if add_fits(a[0], b[0]) && add_fits(a[1], b[1]) && add_fits(a[2], b[2]) && add_fits(
        a[3],
        b[3],
    ) {
        Some(wide_add(a, b))
    } else {
        None
    }
}

/// Lane-wise fixed-point difference, where every lane has one.
pub fn lanes_sub(a: &Lanes, b: &Lanes) -> (r: Option<Lanes>)
    ensures
        match r {
            Some(v) => all_lanes(|i: int| fx_sub(a[i], b[i]) == Some(v[i])),
            None => some_lane(|i: int| fx_sub(a[i], b[i]) is None),
        },
{
    if sub_fits(a[0], b[0]) && sub_fits(a[1], b[1]) && sub_fits(a[2], b[2]) && sub_fits(
        a[3],
        b[3],
    ) {
        Some(wide_sub(a, b))
    } else {
        None
    }
}

/// Lane-wise fixed-point negation, where every lane has one.
pub fn lanes_neg(a: &Lanes) -> (r: Option<Lanes>)
    ensures
        match r {
            Some(v) => all_lanes(|i: int| fx_neg(a[i]) == Some(v[i])),
            None => some_lane(|i: int| fx_neg(a[i]) is None),
        },
{
    if a[0] != i64::MIN && a[1] != i64::MIN && a[2] != i64::MIN && a[3] != i64::MIN {
        Some(wide_neg(a))
    } else {
        None
    }
}

/// Lane-wise fixed-point product, where every lane has one.
pub fn lanes_mul(a: &Lanes, b: &Lanes) -> (r: Option<Lanes>)
    ensures
        match r {
            Some(v) => all_lanes(|i: int| fx_mul(a[i], b[i]) == Some(v[i])),
            None => some_lane(|i: int| fx_mul(a[i], b[i]) is None),
        },
{
    if mul_fits(a[0], b[0]) && mul_fits(a[1], b[1]) && mul_fits(a[2], b[2]) && mul_fits(
        a[3],
        b[3],
    ) {
        let exact = wide_mul(a, b);
        let one = wide_splat(ONE);
        Some(wide_div(&exact, &one))
    } else {
        None
    }
}

/// Lane-wise fixed-point quotient, where every lane has one.
pub fn lanes_div(a: &Lanes, b: &Lanes) -> (r: Option<Lanes>)
    ensures
        match r {
            Some(v) => all_lanes(|i: int| fx_div(a[i], b[i]) == Some(v[i])),
            None => some_lane(|i: int| fx_div(a[i], b[i]) is None),
        },
{
    if mul_fits(a[0], ONE) && mul_fits(a[1], ONE) && mul_fits(a[2], ONE) && mul_fits(a[3], ONE) {
        let one = wide_splat(ONE);
        let scaled = wide_mul(a, &one);
        if div_fits(scaled[0], b[0]) && div_fits(scaled[1], b[1]) && div_fits(scaled[2], b[2])
            && div_fits(scaled[3], b[3]) {
            Some(wide_div(&scaled, b))
        } else {
            None
        }
    } else {
        None
    }
}

} // verus!
