//! Axis-aligned bounding boxes in the plane.

use crate::lanes::in_range;
use crate::lanes::trunc_div;
use crate::math::Vector2;
use vstd::prelude::*;

verus! {

/// The largest margin by which a query box is padded, one tenth in fixed
/// point.
pub const MAX_EXTRA_MARGIN: i64 = 6553;

/// An axis-aligned box, given by its least and greatest corner.
#[derive(Clone, Copy, Debug, PartialEq, Eq, Structural)]
pub struct Aabb {
    pub mins: Vector2,
    pub maxs: Vector2,
}

/// The margin added on one axis to a box of extent `e` on that axis: a tenth
/// of the extent, capped at `MAX_EXTRA_MARGIN`.
pub open spec fn extra_margin(e: int) -> int {
    let tenth = trunc_div(e, 10);
    if tenth < MAX_EXTRA_MARGIN {
        tenth
    } else {
        MAX_EXTRA_MARGIN as int
    }
}

impl Aabb {
    /// A box that contains no box whose least corner lies below its greatest.
    pub fn new_invalid() -> (r: Aabb)
        ensures
            r.mins.x == i64::MAX,
            r.mins.y == i64::MAX,
            r.maxs.x == -i64::MAX,
            r.maxs.y == -i64::MAX,
    {
        Aabb {
            mins: Vector2 { x: i64::MAX, y: i64::MAX },
            maxs: Vector2 { x: -i64::MAX, y: -i64::MAX },
        }
    }

    /// Whether `other` lies inside `self`, borders included.
    pub open spec fn contains_spec(self, other: Aabb) -> bool {
        &&& self.mins.x <= other.mins.x
        &&& self.mins.y <= other.mins.y
        &&& self.maxs.x >= other.maxs.x
        &&& self.maxs.y >= other.maxs.y
    }

    pub fn contains(&self, other: &Aabb) -> (r: bool)
        ensures
            r == self.contains_spec(*other),
    {
        self.mins.x <= other.mins.x && self.mins.y <= other.mins.y && self.maxs.x >= other.maxs.x
            && self.maxs.y >= other.maxs.y
    }

    /// Whether the box grown by `amount` on every side is representable.
    pub open spec fn loosen_fits(self, amount: i64) -> bool {
        &&& in_range(self.mins.x - amount)
        &&& in_range(self.mins.y - amount)
        &&& in_range(self.maxs.x + amount)
        &&& in_range(self.maxs.y + amount)
    }

    /// The box grown by `amount` on every side.
    pub open spec fn loosened_spec(self, amount: i64) -> Aabb {
        Aabb {
            mins: Vector2 { x: (self.mins.x - amount) as i64, y: (self.mins.y - amount) as i64 },
            maxs: Vector2 { x: (self.maxs.x + amount) as i64, y: (self.maxs.y + amount) as i64 },
        }
    }

    pub fn loosened(&self, amount: i64) -> (r: Aabb)
        requires
            amount >= 0,
            self.loosen_fits(amount),
        ensures
            r == self.loosened_spec(amount),
    {
        Aabb {
            mins: Vector2 { x: self.mins.x - amount, y: self.mins.y - amount },
            maxs: Vector2 { x: self.maxs.x + amount, y: self.maxs.y + amount },
        }
    }

    /// Whether the box padded by its extra margins is representable.
    pub open spec fn pad_fits(self) -> bool {
        &&& in_range(self.maxs.x - self.mins.x)
        &&& in_range(self.maxs.y - self.mins.y)
        &&& in_range(self.mins.x - extra_margin(self.maxs.x - self.mins.x))
        &&& in_range(self.mins.y - extra_margin(self.maxs.y - self.mins.y))
        &&& in_range(self.maxs.x + extra_margin(self.maxs.x - self.mins.x))
        &&& in_range(self.maxs.y + extra_margin(self.maxs.y - self.mins.y))
    }

    /// The box moved outward on each axis by the extra margin of its extent
    /// on that axis.
    pub open spec fn padded_spec(self) -> Aabb {
        let ex = extra_margin(self.maxs.x - self.mins.x);
        let ey = extra_margin(self.maxs.y - self.mins.y);
        Aabb {
            mins: Vector2 { x: (self.mins.x - ex) as i64, y: (self.mins.y - ey) as i64 },
            maxs: Vector2 { x: (self.maxs.x + ex) as i64, y: (self.maxs.y + ey) as i64 },
        }
    }

    pub fn padded(&self) -> (r: Aabb)
        requires
            self.pad_fits(),
        ensures
            r == self.padded_spec(),
    {
        let ex: i64 = margin_of(self.maxs.x - self.mins.x);
        let ey: i64 = margin_of(self.maxs.y - self.mins.y);
        Aabb {
            mins: Vector2 { x: self.mins.x - ex, y: self.mins.y - ey },
            maxs: Vector2 { x: self.maxs.x + ex, y: self.maxs.y + ey },
        }
    }
}

fn margin_of(e: i64) -> (r: i64)
    ensures
        r == extra_margin(e as int),
{
    let tenth: i64 = e / 10;
    if tenth < MAX_EXTRA_MARGIN {
        tenth
    } else {
        MAX_EXTRA_MARGIN
    }
}

} // verus!
