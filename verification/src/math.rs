//! Planar vectors, rotations and small symmetric matrices over fixed-point
//! scalars.

use crate::lanes::all_lanes;
use crate::lanes::diff;
use crate::lanes::lanes_add;
use crate::lanes::lanes_div;
use crate::lanes::lanes_mul;
use crate::lanes::lanes_neg;
use crate::lanes::lanes_sub;
use crate::lanes::minus;
use crate::lanes::prod;
use crate::lanes::quot;
use crate::lanes::some_lane;
use crate::lanes::sum;
use crate::lanes::Lanes;
use vstd::prelude::*;

verus! {

/// A planar vector, or a point of the plane.
#[derive(Clone, Copy, Debug, PartialEq, Eq, Structural)]
pub struct Vector2 {
    pub x: i64,
    pub y: i64,
}

/// A planar rotation, held as the cosine and sine of its angle.
#[derive(Clone, Copy, Debug, PartialEq, Eq, Structural)]
pub struct Rotation2 {
    pub cos: i64,
    pub sin: i64,
}

/// A rotation followed by a translation.
#[derive(Clone, Copy, Debug, PartialEq, Eq, Structural)]
pub struct Isometry2 {
    pub rotation: Rotation2,
    pub translation: Vector2,
}

/// A symmetric 2x2 matrix, held by its upper triangle.
#[derive(Clone, Copy, Debug, PartialEq, Eq, Structural)]
pub struct SdpMatrix2 {
    pub m11: i64,
    pub m12: i64,
    pub m22: i64,
}

/// The vector of two components, where both are there.
pub open spec fn vec2(x: Option<i64>, y: Option<i64>) -> Option<Vector2> {
    match (x, y) {
        (Some(x), Some(y)) => Some(Vector2 { x, y }),
        _ => None,
    }
}

/// First component of a vector that may be missing.
pub open spec fn vx(v: Option<Vector2>) -> Option<i64> {
    match v {
        Some(v) => Some(v.x),
        None => None,
    }
}

/// Second component of a vector that may be missing.
pub open spec fn vy(v: Option<Vector2>) -> Option<i64> {
    match v {
        Some(v) => Some(v.y),
        None => None,
    }
}

/// Sum of two vectors.
pub open spec fn v_sum(a: Option<Vector2>, b: Option<Vector2>) -> Option<Vector2> {
    vec2(sum(vx(a), vx(b)), sum(vy(a), vy(b)))
}

/// Difference of two vectors.
pub open spec fn v_diff(a: Option<Vector2>, b: Option<Vector2>) -> Option<Vector2> {
    vec2(diff(vx(a), vx(b)), diff(vy(a), vy(b)))
}

/// The opposite vector.
pub open spec fn v_minus(a: Option<Vector2>) -> Option<Vector2> {
    vec2(minus(vx(a)), minus(vy(a)))
}

/// A vector times a scalar.
pub open spec fn v_scale(v: Option<Vector2>, s: Option<i64>) -> Option<Vector2> {
    vec2(prod(vx(v), s), prod(vy(v), s))
}

/// Cross product of an angular quantity with a vector: the vector turned by
/// a quarter and scaled.
pub open spec fn cross_sv(w: Option<i64>, v: Option<Vector2>) -> Option<Vector2> {
    vec2(prod(minus(vy(v)), w), prod(vx(v), w))
}

/// Cross product of two vectors.
pub open spec fn cross_vv(a: Option<Vector2>, b: Option<Vector2>) -> Option<i64> {
    diff(prod(vx(a), vy(b)), prod(vy(a), vx(b)))
}

/// The vector turned by a quarter: the matrix of the cross product with it.
pub open spec fn cross_matrix(v: Option<Vector2>) -> Option<Vector2> {
    vec2(minus(vy(v)), vx(v))
}

/// A point rotated, then translated.
pub open spec fn transform_point(iso: Isometry2, p: Vector2) -> Option<Vector2> {
    let c = Some(iso.rotation.cos);
    let s = Some(iso.rotation.sin);
    vec2(
        sum(diff(prod(c, Some(p.x)), prod(s, Some(p.y))), Some(iso.translation.x)),
        sum(sum(prod(s, Some(p.x)), prod(c, Some(p.y))), Some(iso.translation.y)),
    )
}

/// The symmetric matrix of three entries, where all are there.
pub open spec fn sdp(m11: Option<i64>, m12: Option<i64>, m22: Option<i64>) -> Option<SdpMatrix2> {
    match (m11, m12, m22) {
        (Some(m11), Some(m12), Some(m22)) => Some(SdpMatrix2 { m11, m12, m22 }),
        _ => None,
    }
}

/// Inverse of a symmetric matrix by its determinant; a matrix whose
/// determinant is zero has none.
pub open spec fn sdp_inverse(m: SdpMatrix2) -> Option<SdpMatrix2> {
    let det = diff(prod(Some(m.m11), Some(m.m22)), prod(Some(m.m12), Some(m.m12)));
    sdp(quot(Some(m.m22), det), quot(minus(Some(m.m12)), det), quot(Some(m.m11), det))
}

/// A symmetric matrix times a vector.
pub open spec fn sdp_mul(m: SdpMatrix2, v: Vector2) -> Option<Vector2> {
    vec2(
        sum(prod(Some(m.m11), Some(v.x)), prod(Some(m.m12), Some(v.y))),
        sum(prod(Some(m.m12), Some(v.x)), prod(Some(m.m22), Some(v.y))),
    )
}

/// Four vectors, one in each lane.
#[derive(Clone, Copy, Debug)]
pub struct WVector2 {
    pub x: Lanes,
    pub y: Lanes,
}

/// Four isometries, one in each lane.
#[derive(Clone, Copy, Debug)]
pub struct WIsometry2 {
    pub cos: Lanes,
    pub sin: Lanes,
    pub translation: WVector2,
}

/// Four symmetric matrices, one in each lane.
#[derive(Clone, Copy, Debug)]
pub struct WSdpMatrix2 {
    pub m11: Lanes,
    pub m12: Lanes,
    pub m22: Lanes,
}

impl WVector2 {
    /// The vector in lane `i`.
    pub open spec fn lane(self, i: int) -> Vector2 {
        Vector2 { x: self.x[i], y: self.y[i] }
    }

    pub fn plus(&self, other: &WVector2) -> (r: Option<WVector2>)
        ensures
            match r {
                Some(w) => all_lanes(
                    |i: int| v_sum(Some(self.lane(i)), Some(other.lane(i))) == Some(w.lane(i)),
                ),
                None => some_lane(
                    |i: int| v_sum(Some(self.lane(i)), Some(other.lane(i))) is None,
                ),
            },
    {
        let x = lanes_add(&self.x, &other.x)?;
        let y = lanes_add(&self.y, &other.y)?;
        Some(WVector2 { x, y })
    }

    pub fn less(&self, other: &WVector2) -> (r: Option<WVector2>)
        ensures
            match r {
                Some(w) => all_lanes(
                    |i: int| v_diff(Some(self.lane(i)), Some(other.lane(i))) == Some(w.lane(i)),
                ),
                None => some_lane(
                    |i: int| v_diff(Some(self.lane(i)), Some(other.lane(i))) is None,
                ),
            },
    {
        let x = lanes_sub(&self.x, &other.x)?;
        let y = lanes_sub(&self.y, &other.y)?;
        Some(WVector2 { x, y })
    }

    pub fn negated(&self) -> (r: Option<WVector2>)
        ensures
            match r {
                Some(w) => all_lanes(|i: int| v_minus(Some(self.lane(i))) == Some(w.lane(i))),
                None => some_lane(|i: int| v_minus(Some(self.lane(i))) is None),
            },
    {
        let x = lanes_neg(&self.x)?;
        let y = lanes_neg(&self.y)?;
        Some(WVector2 { x, y })
    }

    pub fn scaled(&self, s: &Lanes) -> (r: Option<WVector2>)
        ensures
            match r {
                Some(w) => all_lanes(
                    |i: int| v_scale(Some(self.lane(i)), Some(s[i])) == Some(w.lane(i)),
                ),
                None => some_lane(|i: int| v_scale(Some(self.lane(i)), Some(s[i])) is None),
            },
    {
        let x = lanes_mul(&self.x, s)?;
        let y = lanes_mul(&self.y, s)?;
        Some(WVector2 { x, y })
    }

    /// Cross product with another vector.
    pub fn gcross(&self, other: &WVector2) -> (r: Option<Lanes>)
        ensures
            match r {
                Some(w) => all_lanes(
                    |i: int| cross_vv(Some(self.lane(i)), Some(other.lane(i))) == Some(w[i]),
                ),
                None => some_lane(
                    |i: int| cross_vv(Some(self.lane(i)), Some(other.lane(i))) is None,
                ),
            },
    {
        let a = lanes_mul(&self.x, &other.y)?;
        let b = lanes_mul(&self.y, &other.x)?;
        lanes_sub(&a, &b)
    }

    /// The matrix of the cross product with this vector.
    pub fn gcross_matrix(&self) -> (r: Option<WVector2>)
        ensures
            match r {
                Some(w) => all_lanes(
                    |i: int| cross_matrix(Some(self.lane(i))) == Some(w.lane(i)),
                ),
                None => some_lane(|i: int| cross_matrix(Some(self.lane(i))) is None),
            },
    {
        let x = lanes_neg(&self.y)?;
        Some(WVector2 { x, y: self.x })
    }
}

/// Cross product of an angular quantity with a vector, lane by lane.
pub fn gcross_angular(w: &Lanes, v: &WVector2) -> (r: Option<WVector2>)
    ensures
        match r {
            Some(u) => all_lanes(
                |i: int| cross_sv(Some(w[i]), Some(v.lane(i))) == Some(u.lane(i)),
            ),
            None => some_lane(|i: int| cross_sv(Some(w[i]), Some(v.lane(i))) is None),
        },
{
    let ny = lanes_neg(&v.y)?;
    let x = lanes_mul(&ny, w)?;
    let y = lanes_mul(&v.x, w)?;
    Some(WVector2 { x, y })
}

impl WIsometry2 {
    /// The isometry in lane `i`.
    pub open spec fn lane(self, i: int) -> Isometry2 {
        Isometry2 {
            rotation: Rotation2 { cos: self.cos[i], sin: self.sin[i] },
            translation: self.translation.lane(i),
        }
    }

    pub fn transform_point(&self, p: &WVector2) -> (r: Option<WVector2>)
        ensures
            match r {
                Some(w) => all_lanes(
                    |i: int| transform_point(self.lane(i), p.lane(i)) == Some(w.lane(i)),
                ),
                None => some_lane(|i: int| transform_point(self.lane(i), p.lane(i)) is None),
            },
    {
        let cx = lanes_mul(&self.cos, &p.x)?;
        let sy = lanes_mul(&self.sin, &p.y)?;
        let rx = lanes_sub(&cx, &sy)?;
        let x = lanes_add(&rx, &self.translation.x)?;
        let sx = lanes_mul(&self.sin, &p.x)?;
        let cy = lanes_mul(&self.cos, &p.y)?;
        let ry = lanes_add(&sx, &cy)?;
        let y = lanes_add(&ry, &self.translation.y)?;
        Some(WVector2 { x, y })
    }
}

impl WSdpMatrix2 {
    /// The matrix in lane `i`.
    pub open spec fn lane(self, i: int) -> SdpMatrix2 {
        SdpMatrix2 { m11: self.m11[i], m12: self.m12[i], m22: self.m22[i] }
    }

    /// The inverse of each lane's matrix, where every lane has one.
    pub fn inverse(&self) -> (r: Option<WSdpMatrix2>)
        ensures
            match r {
                Some(w) => all_lanes(|i: int| sdp_inverse(self.lane(i)) == Some(w.lane(i))),
                None => some_lane(|i: int| sdp_inverse(self.lane(i)) is None),
            },
    {
        let a = lanes_mul(&self.m11, &self.m22)?;
        let b = lanes_mul(&self.m12, &self.m12)?;
        let det = lanes_sub(&a, &b)?;
        let m11 = lanes_div(&self.m22, &det)?;
        let n12 = lanes_neg(&self.m12)?;
        let m12 = lanes_div(&n12, &det)?;
        let m22 = lanes_div(&self.m11, &det)?;
        Some(WSdpMatrix2 { m11, m12, m22 })
    }

    pub fn times(&self, v: &WVector2) -> (r: Option<WVector2>)
        ensures
            match r {
                Some(w) => all_lanes(
                    |i: int| sdp_mul(self.lane(i), v.lane(i)) == Some(w.lane(i)),
                ),
                None => some_lane(|i: int| sdp_mul(self.lane(i), v.lane(i)) is None),
            },
    {
        let a = lanes_mul(&self.m11, &v.x)?;
        let b = lanes_mul(&self.m12, &v.y)?;
        let x = lanes_add(&a, &b)?;
        let c = lanes_mul(&self.m12, &v.x)?;
        let d = lanes_mul(&self.m22, &v.y)?;
        let y = lanes_add(&c, &d)?;
        Some(WVector2 { x, y })
    }
}

} // verus!
