//! The velocity constraint of ball joints between two movable bodies, four
//! joints at a time.
//!
//! What the batch computes is stated lane by lane: `ball_lane`,
//! `warmstart_lane` and `solve_lane` say what one joint's constraint is and
//! does, and the batch does the same in each of its lanes, or nothing where
//! one lane has no result.

use crate::dynamics::BallJoint;
use crate::dynamics::DeltaVel;
use crate::dynamics::IntegrationParameters;
use crate::dynamics::JointIndex;
use crate::dynamics::RigidBody;
use crate::dynamics::JointGraphEdge;
use crate::dynamics::WDeltaVel;
use crate::dynamics::WRigidBody;
use crate::dynamics::stored;
use crate::dynamics::wide_vector;
use crate::dynamics::write_impulses;
use crate::dynamics::written;
use crate::lanes::diff;
use crate::lanes::fx_mul;
use crate::lanes::lanes_sub;
use crate::lanes::wide_extract;
use crate::lanes::all_lanes;
use crate::lanes::lanes_add;
use crate::lanes::lanes_mul;
use crate::lanes::lanes_splat;
use crate::lanes::prod;
use crate::lanes::some_lane;
use crate::lanes::sum;
use crate::lanes::Lanes;
use crate::math::cross_matrix;
use crate::math::cross_sv;
use crate::math::cross_vv;
use crate::math::sdp_mul;
use crate::math::gcross_angular;
use crate::math::sdp;
use crate::math::sdp_inverse;
use crate::math::transform_point;
use crate::math::v_diff;
use crate::math::v_minus;
use crate::math::v_scale;
use crate::math::v_sum;
use crate::math::vx;
use crate::math::vy;
use crate::math::SdpMatrix2;
use crate::math::Vector2;
use crate::math::WSdpMatrix2;
use crate::math::WVector2;
use vstd::prelude::*;

verus! {

/// The constraint of one ball joint: what one lane of a batch holds.
#[derive(Clone, Copy, Debug, PartialEq, Eq, Structural)]
pub struct BallLane {
    /// The first body's place in the list of velocity corrections.
    pub mj_lambda1: usize,
    /// The second body's place in the list of velocity corrections.
    pub mj_lambda2: usize,
    pub joint_id: JointIndex,
    /// The relative velocity of the two anchors that the constraint has to
    /// bring about.
    pub rhs: Vector2,
    pub impulse: Vector2,
    /// The first body's anchor, weighted by the root of its inverse inertia.
    pub gcross1: Vector2,
    /// The second body's anchor, weighted by the root of its inverse inertia.
    pub gcross2: Vector2,
    /// Inverse of the effective mass matrix.
    pub inv_lhs: SdpMatrix2,
    pub im1: i64,
    pub im2: i64,
}

/// A joint's anchor on a body, in world space, seen from the body's center
/// of mass.
pub open spec fn world_anchor(rb: RigidBody, local_anchor: Vector2) -> Option<Vector2> {
    v_diff(transform_point(rb.position, local_anchor), Some(rb.world_com))
}

/// The velocity of a point of a body, given from the center of mass.
pub open spec fn point_velocity(rb: RigidBody, anchor: Option<Vector2>) -> Option<Vector2> {
    v_sum(Some(rb.linvel), cross_sv(Some(rb.angvel), anchor))
}

/// A body's inverse angular inertia.
pub open spec fn inv_inertia(rb: RigidBody) -> Option<i64> {
    prod(Some(rb.world_inv_inertia_sqrt), Some(rb.world_inv_inertia_sqrt))
}

/// What a body adds to the effective mass matrix through its rotation:
/// the entries `m11`, `m12`, `m22` of its inverse inertia carried to the
/// anchor.
pub open spec fn angular_mass(rb: RigidBody, anchor: Option<Vector2>) -> (
    Option<i64>,
    Option<i64>,
    Option<i64>,
) {
    let c = cross_matrix(anchor);
    let ii = inv_inertia(rb);
    (prod(prod(vx(c), vx(c)), ii), prod(prod(vx(c), vy(c)), ii), prod(prod(vy(c), vy(c)), ii))
}

/// The effective mass matrix of a ball joint between two movable bodies.
pub open spec fn effective_mass(
    rb1: RigidBody,
    rb2: RigidBody,
    anchor1: Option<Vector2>,
    anchor2: Option<Vector2>,
) -> Option<SdpMatrix2> {
    let a1 = angular_mass(rb1, anchor1);
    let a2 = angular_mass(rb2, anchor2);
    let im = sum(Some(rb1.mass_properties.inv_mass), Some(rb2.mass_properties.inv_mass));
    sdp(sum(sum(im, a1.0), a2.0), sum(a1.1, a2.1), sum(sum(im, a1.2), a2.2))
}

/// A body's anchor weighted by the root of its inverse inertia.
pub open spec fn torque_arm(rb: RigidBody, anchor: Option<Vector2>) -> Option<Vector2> {
    v_scale(anchor, Some(rb.world_inv_inertia_sqrt))
}

/// The impulse that a step starts from: the joint's impulse of the last
/// step, scaled by the warmstart coefficient.
pub open spec fn seeded_impulse(params: IntegrationParameters, joint: BallJoint) -> Option<
    Vector2,
> {
    v_scale(Some(joint.impulse), Some(params.warmstart_coeff))
}

/// The inverse of a matrix that may be missing.
pub open spec fn inverse_of(m: Option<SdpMatrix2>) -> Option<SdpMatrix2> {
    match m {
        Some(m) => sdp_inverse(m),
        None => None,
    }
}

/// The constraint of one ball joint between two movable bodies, built from
/// the bodies' state at the start of the step. There is none where a value
/// on the way is not representable or the effective mass matrix has no
/// inverse.
#[verifier::opaque]
pub open spec fn ball_lane(
    params: IntegrationParameters,
    joint_id: JointIndex,
    rb1: RigidBody,
    rb2: RigidBody,
    joint: BallJoint,
) -> Option<BallLane> {
    let anchor1 = world_anchor(rb1, joint.local_anchor1);
    let anchor2 = world_anchor(rb2, joint.local_anchor2);
    let rhs = v_minus(v_diff(point_velocity(rb1, anchor1), point_velocity(rb2, anchor2)));
    let inv_lhs = inverse_of(effective_mass(rb1, rb2, anchor1, anchor2));
    let gcross1 = torque_arm(rb1, anchor1);
    let gcross2 = torque_arm(rb2, anchor2);
    let impulse = seeded_impulse(params, joint);
    match (rhs, inv_lhs, gcross1, gcross2, impulse) {
        (Some(rhs), Some(inv_lhs), Some(gcross1), Some(gcross2), Some(impulse)) => Some(
            BallLane {
                mj_lambda1: rb1.active_set_offset,
                mj_lambda2: rb2.active_set_offset,
                joint_id,
                rhs,
                impulse,
                gcross1,
                gcross2,
                inv_lhs,
                im1: rb1.mass_properties.inv_mass,
                im2: rb2.mass_properties.inv_mass,
            },
        ),
        _ => None,
    }
}

/// The velocity correction of two components, where both are there.
pub open spec fn delta_vel(linear: Option<Vector2>, angular: Option<i64>) -> Option<DeltaVel> {
    match (linear, angular) {
        (Some(linear), Some(angular)) => Some(DeltaVel { linear, angular }),
        _ => None,
    }
}

/// A body's correction after an impulse has pushed it at its anchor.
pub open spec fn pushed(
    dv: DeltaVel,
    impulse: Option<Vector2>,
    inv_mass: i64,
    gcross: Vector2,
) -> Option<DeltaVel> {
    delta_vel(
        v_sum(Some(dv.linear), v_scale(impulse, Some(inv_mass))),
        sum(Some(dv.angular), cross_vv(Some(gcross), impulse)),
    )
}

/// A body's correction after an impulse has pulled it at its anchor: the
/// opposite of `pushed`.
pub open spec fn pulled(
    dv: DeltaVel,
    impulse: Option<Vector2>,
    inv_mass: i64,
    gcross: Vector2,
) -> Option<DeltaVel> {
    delta_vel(
        v_diff(Some(dv.linear), v_scale(impulse, Some(inv_mass))),
        diff(Some(dv.angular), cross_vv(Some(gcross), impulse)),
    )
}

/// The corrections of a joint's two bodies, where both are there.
pub open spec fn both(dv1: Option<DeltaVel>, dv2: Option<DeltaVel>) -> Option<(DeltaVel, DeltaVel)> {
    match (dv1, dv2) {
        (Some(dv1), Some(dv2)) => Some((dv1, dv2)),
        _ => None,
    }
}

/// The corrections of a joint's two bodies after the constraint's seeded
/// impulse has been applied: the first body is pushed, the second pulled.
pub open spec fn warmstart_lane(c: BallLane, dv1: DeltaVel, dv2: DeltaVel) -> Option<
    (DeltaVel, DeltaVel),
> {
    both(
        pushed(dv1, Some(c.impulse), c.im1, c.gcross1),
        pulled(dv2, Some(c.impulse), c.im2, c.gcross2),
    )
}

/// The velocity that a body's correction gives its anchor.
pub open spec fn correction_at_anchor(dv: DeltaVel, gcross: Vector2) -> Option<Vector2> {
    v_sum(Some(dv.linear), cross_sv(Some(dv.angular), Some(gcross)))
}

/// What is still wrong with the relative velocity of the anchors.
pub open spec fn velocity_error(c: BallLane, dv1: DeltaVel, dv2: DeltaVel) -> Option<Vector2> {
    v_sum(
        v_sum(v_minus(correction_at_anchor(dv1, c.gcross1)), correction_at_anchor(dv2, c.gcross2)),
        Some(c.rhs),
    )
}

/// The impulse that takes the velocity error away.
pub open spec fn impulse_correction(inv_lhs: SdpMatrix2, error: Option<Vector2>) -> Option<
    Vector2,
> {
    match error {
        Some(error) => sdp_mul(inv_lhs, error),
        None => None,
    }
}

/// What one solver iteration leaves of a joint: its accumulated impulse and
/// the corrections of its two bodies.
#[derive(Clone, Copy, Debug, PartialEq, Eq, Structural)]
pub struct SolveStep {
    pub impulse: Vector2,
    pub dv1: DeltaVel,
    pub dv2: DeltaVel,
}

/// One solver iteration on one joint: the impulse that takes the velocity
/// error away is added to the accumulated impulse, pushes the first body
/// and pulls the second.
#[verifier::opaque]
pub open spec fn solve_lane(c: BallLane, dv1: DeltaVel, dv2: DeltaVel) -> Option<SolveStep> {
    let correction = impulse_correction(c.inv_lhs, velocity_error(c, dv1, dv2));
    match (
        v_sum(Some(c.impulse), correction),
        pushed(dv1, correction, c.im1, c.gcross1),
        pulled(dv2, correction, c.im2, c.gcross2),
    ) {
        (Some(impulse), Some(dv1), Some(dv2)) => Some(SolveStep { impulse, dv1, dv2 }),
        _ => None,
    }
}

/// A constraint with another accumulated impulse.
pub open spec fn with_accumulated(c: BallLane, impulse: Vector2) -> BallLane {
    BallLane {
        mj_lambda1: c.mj_lambda1,
        mj_lambda2: c.mj_lambda2,
        joint_id: c.joint_id,
        rhs: c.rhs,
        impulse,
        gcross1: c.gcross1,
        gcross2: c.gcross2,
        inv_lhs: c.inv_lhs,
        im1: c.im1,
        im2: c.im2,
    }
}

/// The corrections of four bodies after impulses have pushed them.
pub fn wide_pushed(dv: &WDeltaVel, impulse: &WVector2, inv_mass: &Lanes, gcross: &WVector2) -> (r:
    Option<WDeltaVel>)
    ensures
        match r {
            Some(w) => all_lanes(
                |i: int|
                    pushed(dv.lane(i), Some(impulse.lane(i)), inv_mass[i], gcross.lane(i)) == Some(
                        w.lane(i),
                    ),
            ),
            None => some_lane(
                |i: int|
                    pushed(dv.lane(i), Some(impulse.lane(i)), inv_mass[i], gcross.lane(i)) is None,
            ),
        },
{
    let by_mass = impulse.scaled(inv_mass)?;
    let linear = dv.linear.plus(&by_mass)?;
    let torque = gcross.gcross(impulse)?;
    let angular = lanes_add(&dv.angular, &torque)?;
    Some(WDeltaVel { linear, angular })
}

/// The corrections of four bodies after impulses have pulled them.
pub fn wide_pulled(dv: &WDeltaVel, impulse: &WVector2, inv_mass: &Lanes, gcross: &WVector2) -> (r:
    Option<WDeltaVel>)
    ensures
        match r {
            Some(w) => all_lanes(
                |i: int|
                    pulled(dv.lane(i), Some(impulse.lane(i)), inv_mass[i], gcross.lane(i)) == Some(
                        w.lane(i),
                    ),
            ),
            None => some_lane(
                |i: int|
                    pulled(dv.lane(i), Some(impulse.lane(i)), inv_mass[i], gcross.lane(i)) is None,
            ),
        },
{
    let by_mass = impulse.scaled(inv_mass)?;
    let linear = dv.linear.less(&by_mass)?;
    let torque = gcross.gcross(impulse)?;
    let angular = lanes_sub(&dv.angular, &torque)?;
    Some(WDeltaVel { linear, angular })
}

/// The velocities that four corrections give their anchors.
pub fn wide_correction_at_anchor(dv: &WDeltaVel, gcross: &WVector2) -> (r: Option<WVector2>)
    ensures
        match r {
            Some(w) => all_lanes(
                |i: int| correction_at_anchor(dv.lane(i), gcross.lane(i)) == Some(w.lane(i)),
            ),
            None => some_lane(
                |i: int| correction_at_anchor(dv.lane(i), gcross.lane(i)) is None,
            ),
        },
{
    let turning = gcross_angular(&dv.angular, gcross)?;
    dv.linear.plus(&turning)
}

/// The anchors of four joints on their bodies.
pub fn wide_world_anchor(rbs: &WRigidBody, local_anchor: &WVector2) -> (r: Option<WVector2>)
    ensures
        match r {
            Some(w) => all_lanes(
                |i: int| world_anchor(rbs.lane(i), local_anchor.lane(i)) == Some(w.lane(i)),
            ),
            None => some_lane(|i: int| world_anchor(rbs.lane(i), local_anchor.lane(i)) is None),
        },
{
    let world = rbs.position.transform_point(local_anchor)?;
    world.less(&rbs.world_com)
}

/// The velocities of four bodies at their anchors.
pub fn wide_point_velocity(rbs: &WRigidBody, anchor: &WVector2) -> (r: Option<WVector2>)
    ensures
        match r {
            Some(w) => all_lanes(
                |i: int| point_velocity(rbs.lane(i), Some(anchor.lane(i))) == Some(w.lane(i)),
            ),
            None => some_lane(
                |i: int| point_velocity(rbs.lane(i), Some(anchor.lane(i))) is None,
            ),
        },
{
    let turning = gcross_angular(&rbs.angvel, anchor)?;
    rbs.linvel.plus(&turning)
}

/// What four bodies add to their effective mass matrices through their
/// rotation.
pub fn wide_angular_mass(rbs: &WRigidBody, anchor: &WVector2) -> (r: Option<WSdpMatrix2>)
    ensures
        match r {
            Some(w) => all_lanes(
                |i: int|
                    {
                        let a = angular_mass(rbs.lane(i), Some(anchor.lane(i)));
                        sdp(a.0, a.1, a.2) == Some(w.lane(i))
                    },
            ),
            None => some_lane(
                |i: int|
                    {
                        let a = angular_mass(rbs.lane(i), Some(anchor.lane(i)));
                        sdp(a.0, a.1, a.2) is None
                    },
            ),
        },
{
    let c = anchor.gcross_matrix()?;
    let ii = lanes_mul(&rbs.world_inv_inertia_sqrt, &rbs.world_inv_inertia_sqrt)?;
    let xx = lanes_mul(&c.x, &c.x)?;
    let m11 = lanes_mul(&xx, &ii)?;
    let xy = lanes_mul(&c.x, &c.y)?;
    let m12 = lanes_mul(&xy, &ii)?;
    let yy = lanes_mul(&c.y, &c.y)?;
    let m22 = lanes_mul(&yy, &ii)?;
    Some(WSdpMatrix2 { m11, m12, m22 })
}

/// The effective mass matrices of four joints.
pub fn wide_effective_mass(
    rbs1: &WRigidBody,
    rbs2: &WRigidBody,
    anchor1: &WVector2,
    anchor2: &WVector2,
) -> (r: Option<WSdpMatrix2>)
    ensures
        match r {
            Some(w) => all_lanes(
                |i: int|
                    effective_mass(
                        rbs1.lane(i),
                        rbs2.lane(i),
                        Some(anchor1.lane(i)),
                        Some(anchor2.lane(i)),
                    ) == Some(w.lane(i)),
            ),
            None => some_lane(
                |i: int|
                    effective_mass(
                        rbs1.lane(i),
                        rbs2.lane(i),
                        Some(anchor1.lane(i)),
                        Some(anchor2.lane(i)),
                    ) is None,
            ),
        },
{
    let a1 = wide_angular_mass(rbs1, anchor1)?;
    let a2 = wide_angular_mass(rbs2, anchor2)?;
    let im = lanes_add(&rbs1.inv_mass, &rbs2.inv_mass)?;
    let d1 = lanes_add(&im, &a1.m11)?;
    let m11 = lanes_add(&d1, &a2.m11)?;
    let m12 = lanes_add(&a1.m12, &a2.m12)?;
    let d2 = lanes_add(&im, &a1.m22)?;
    let m22 = lanes_add(&d2, &a2.m22)?;
    Some(WSdpMatrix2 { m11, m12, m22 })
}

/// Four ball joint constraints between movable bodies, solved together.
#[derive(Debug)]
pub struct WBallVelocityConstraint {
    mj_lambda1: [usize; 4],
    mj_lambda2: [usize; 4],
    joint_id: [JointIndex; 4],
    rhs: WVector2,
    impulse: WVector2,
    gcross1: WVector2,
    gcross2: WVector2,
    inv_lhs: WSdpMatrix2,
    im1: Lanes,
    im2: Lanes,
}

impl WBallVelocityConstraint {
    /// The constraint in lane `i`.
    pub closed spec fn lane(self, i: int) -> BallLane {
        BallLane {
            mj_lambda1: self.mj_lambda1[i],
            mj_lambda2: self.mj_lambda2[i],
            joint_id: self.joint_id[i],
            rhs: self.rhs.lane(i),
            impulse: self.impulse.lane(i),
            gcross1: self.gcross1.lane(i),
            gcross2: self.gcross2.lane(i),
            inv_lhs: self.inv_lhs.lane(i),
            im1: self.im1[i],
            im2: self.im2[i],
        }
    }

    /// Builds the constraints of four joints from the state of their bodies,
    /// each lane as `ball_lane` says. Where one lane has no constraint,
    /// there is no batch.
    pub fn from_params(
        params: &IntegrationParameters,
        joint_id: [JointIndex; 4],
        rbs1: [&RigidBody; 4],
        rbs2: [&RigidBody; 4],
        cparams: [&BallJoint; 4],
    ) -> (r: Option<Self>)
        ensures
            match r {
                Some(c) => all_lanes(
                    |i: int|
                        ball_lane(*params, joint_id[i], *rbs1[i], *rbs2[i], *cparams[i]) == Some(
                            c.lane(i),
                        ),
                ),
                None => some_lane(
                    |i: int|
                        ball_lane(*params, joint_id[i], *rbs1[i], *rbs2[i], *cparams[i]) is None,
                ),
            },
    {
        proof {
            reveal(ball_lane);
        }
        let b1 = WRigidBody::from_bodies(&rbs1);
        let b2 = WRigidBody::from_bodies(&rbs2);
        let local_anchor1 = wide_vector(
            &cparams[0].local_anchor1,
            &cparams[1].local_anchor1,
            &cparams[2].local_anchor1,
            &cparams[3].local_anchor1,
        );
        let local_anchor2 = wide_vector(
            &cparams[0].local_anchor2,
            &cparams[1].local_anchor2,
            &cparams[2].local_anchor2,
            &cparams[3].local_anchor2,
        );
        let impulse = wide_vector(
            &cparams[0].impulse,
            &cparams[1].impulse,
            &cparams[2].impulse,
            &cparams[3].impulse,
        );
        let anchor1 = wide_world_anchor(&b1, &local_anchor1)?;
        let anchor2 = wide_world_anchor(&b2, &local_anchor2)?;
        let vel1 = wide_point_velocity(&b1, &anchor1)?;
        let vel2 = wide_point_velocity(&b2, &anchor2)?;
        let rhs = vel1.less(&vel2)?.negated()?;
        let lhs = wide_effective_mass(&b1, &b2, &anchor1, &anchor2)?;
        let gcross1 = anchor1.scaled(&b1.world_inv_inertia_sqrt)?;
        let gcross2 = anchor2.scaled(&b2.world_inv_inertia_sqrt)?;
        let inv_lhs = lhs.inverse()?;
        let coeff = lanes_splat(params.warmstart_coeff);
        let impulse = impulse.scaled(&coeff)?;
        Some(
            WBallVelocityConstraint {
                mj_lambda1: b1.active_set_offset,
                mj_lambda2: b2.active_set_offset,
                joint_id,
                rhs,
                impulse,
                gcross1,
                gcross2,
                inv_lhs,
                im1: b1.inv_mass,
                im2: b2.inv_mass,
            },
        )
    }

    /// Lane `i` of the batch.
    pub fn lane_at(&self, i: usize) -> (r: BallLane)
        requires
            i < 4,
        ensures
            r == self.lane(i as int),
    {
        BallLane {
            mj_lambda1: self.mj_lambda1[i],
            mj_lambda2: self.mj_lambda2[i],
            joint_id: self.joint_id[i],
            rhs: extract_vector(&self.rhs, i),
            impulse: extract_vector(&self.impulse, i),
            gcross1: extract_vector(&self.gcross1, i),
            gcross2: extract_vector(&self.gcross2, i),
            inv_lhs: SdpMatrix2 {
                m11: wide_extract(&self.inv_lhs.m11, i),
                m12: wide_extract(&self.inv_lhs.m12, i),
                m22: wide_extract(&self.inv_lhs.m22, i),
            },
            im1: wide_extract(&self.im1, i),
            im2: wide_extract(&self.im2, i),
        }
    }

    /// Whether every lane's bodies have a place in a list of `len`
    /// velocity corrections.
    pub open spec fn bodies_within(self, len: nat) -> bool {
        all_lanes(|i: int| self.lane(i).mj_lambda1 < len && self.lane(i).mj_lambda2 < len)
    }

    /// What `warmstart` makes of lane `i`'s two bodies.
    pub open spec fn warmstarted(self, mj_lambdas: Seq<DeltaVel>, i: int) -> Option<
        (DeltaVel, DeltaVel),
    > {
        warmstart_lane(
            self.lane(i),
            mj_lambdas[self.lane(i).mj_lambda1 as int],
            mj_lambdas[self.lane(i).mj_lambda2 as int],
        )
    }

    /// What `solve` makes of lane `i`.
    pub open spec fn solved(self, mj_lambdas: Seq<DeltaVel>, i: int) -> Option<SolveStep> {
        solve_lane(
            self.lane(i),
            mj_lambdas[self.lane(i).mj_lambda1 as int],
            mj_lambdas[self.lane(i).mj_lambda2 as int],
        )
    }

    /// Applies the seeded impulse of each lane to the corrections of the
    /// lane's two bodies, as `warmstart_lane` says. All lanes read before
    /// any writes; the first bodies are written lane by lane, then the
    /// second bodies. Returns whether it was done: where one lane has no
    /// result, nothing is written.
    pub fn warmstart(&self, mj_lambdas: &mut Vec<DeltaVel>) -> (done: bool)
        requires
            self.bodies_within(old(mj_lambdas)@.len()),
        ensures
            done == all_lanes(|i: int| self.warmstarted(old(mj_lambdas)@, i) is Some),
            !done ==> final(mj_lambdas)@ == old(mj_lambdas)@,
            done ==> final(mj_lambdas)@ == stored(
                stored(
                    old(mj_lambdas)@,
                    |i: int| self.lane(i).mj_lambda1 as int,
                    |i: int| self.warmstarted(old(mj_lambdas)@, i).unwrap().0,
                ),
                |i: int| self.lane(i).mj_lambda2 as int,
                |i: int| self.warmstarted(old(mj_lambdas)@, i).unwrap().1,
            ),
    {
        let mj_lambda1 = WDeltaVel::gather(mj_lambdas, &self.mj_lambda1);
        let mj_lambda2 = WDeltaVel::gather(mj_lambdas, &self.mj_lambda2);
        let new1 = wide_pushed(&mj_lambda1, &self.impulse, &self.im1, &self.gcross1);
        let new2 = wide_pulled(&mj_lambda2, &self.impulse, &self.im2, &self.gcross2);
        match (new1, new2) {
            (Some(new1), Some(new2)) => {
                new1.scatter(mj_lambdas, &self.mj_lambda1);
                new2.scatter(mj_lambdas, &self.mj_lambda2);
                true
            },
            _ => false,
        }
    }

    /// One solver iteration on each lane, as `solve_lane` says. All lanes
    /// read before any writes; the first bodies are written lane by lane,
    /// then the second bodies. Returns whether it was done: where one lane
    /// has no result, nothing changes.
    pub fn solve(&mut self, mj_lambdas: &mut Vec<DeltaVel>) -> (done: bool)
        requires
            old(self).bodies_within(old(mj_lambdas)@.len()),
        ensures
            done == all_lanes(|i: int| old(self).solved(old(mj_lambdas)@, i) is Some),
            !done ==> *final(self) == *old(self) && final(mj_lambdas)@ == old(mj_lambdas)@,
            done ==> all_lanes(
                |i: int|
                    final(self).lane(i) == with_accumulated(
                        old(self).lane(i),
                        old(self).solved(old(mj_lambdas)@, i).unwrap().impulse,
                    ),
            ),
            done ==> final(mj_lambdas)@ == stored(
                stored(
                    old(mj_lambdas)@,
                    |i: int| old(self).lane(i).mj_lambda1 as int,
                    |i: int| old(self).solved(old(mj_lambdas)@, i).unwrap().dv1,
                ),
                |i: int| old(self).lane(i).mj_lambda2 as int,
                |i: int| old(self).solved(old(mj_lambdas)@, i).unwrap().dv2,
            ),
    {
        let mj_lambda1 = WDeltaVel::gather(mj_lambdas, &self.mj_lambda1);
        let mj_lambda2 = WDeltaVel::gather(mj_lambdas, &self.mj_lambda2);
        match self.step(&mj_lambda1, &mj_lambda2) {
            Some((impulse, new1, new2)) => {
                self.commit(mj_lambdas, impulse, &new1, &new2);
                true
            },
            None => false,
        }
    }

    /// Takes over the result of an iteration: the accumulated impulses, and
    /// the corrections of the first bodies, then of the second.
    fn commit(
        &mut self,
        mj_lambdas: &mut Vec<DeltaVel>,
        impulse: WVector2,
        new1: &WDeltaVel,
        new2: &WDeltaVel,
    )
        requires
            old(self).bodies_within(old(mj_lambdas)@.len()),
        ensures
            all_lanes(
                |i: int|
                    final(self).lane(i) == with_accumulated(old(self).lane(i), impulse.lane(i)),
            ),
            final(mj_lambdas)@ == stored(
                stored(
                    old(mj_lambdas)@,
                    |i: int| old(self).lane(i).mj_lambda1 as int,
                    |i: int| new1.lane(i),
                ),
                |i: int| old(self).lane(i).mj_lambda2 as int,
                |i: int| new2.lane(i),
            ),
    {
        self.impulse = impulse;
        new1.scatter(mj_lambdas, &self.mj_lambda1);
        new2.scatter(mj_lambdas, &self.mj_lambda2);
    }

    /// One solver iteration on what was gathered of the bodies.
    fn step(&self, mj_lambda1: &WDeltaVel, mj_lambda2: &WDeltaVel) -> (r: Option<
        (WVector2, WDeltaVel, WDeltaVel),
    >)
        ensures
            match r {
                Some((impulse, new1, new2)) => all_lanes(
                    |i: int|
                        solve_lane(self.lane(i), mj_lambda1.lane(i), mj_lambda2.lane(i)) == Some(
                            SolveStep {
                                impulse: impulse.lane(i),
                                dv1: new1.lane(i),
                                dv2: new2.lane(i),
                            },
                        ),
                ),
                None => some_lane(
                    |i: int|
                        solve_lane(self.lane(i), mj_lambda1.lane(i), mj_lambda2.lane(i)) is None,
                ),
            },
    {
        proof {
            reveal(solve_lane);
        }
        let vel1 = wide_correction_at_anchor(mj_lambda1, &self.gcross1)?;
        let vel2 = wide_correction_at_anchor(mj_lambda2, &self.gcross2)?;
        let dvel = vel1.negated()?.plus(&vel2)?.plus(&self.rhs)?;
        let correction = self.inv_lhs.times(&dvel)?;
        let impulse = self.impulse.plus(&correction)?;
        let new1 = wide_pushed(mj_lambda1, &correction, &self.im1, &self.gcross1)?;
        let new2 = wide_pulled(mj_lambda2, &correction, &self.im2, &self.gcross2)?;
        Some((impulse, new1, new2))
    }

    /// Whether every lane's joint has a place in a list of `len` joints.
    pub open spec fn joints_within(self, len: nat) -> bool {
        all_lanes(|i: int| self.lane(i).joint_id < len)
    }

    /// Records each lane's accumulated impulse in the lane's joint, lane 0
    /// first, for the next step to start from. A joint that is no ball
    /// joint is left as it is.
    pub fn writeback_impulses(&self, joints_all: &mut Vec<JointGraphEdge>)
        requires
            self.joints_within(old(joints_all)@.len()),
        ensures
            final(joints_all)@ == written(
                old(joints_all)@,
                |i: int| self.lane(i).joint_id as int,
                |i: int| self.lane(i).impulse,
            ),
    {
        write_impulses(joints_all, &self.joint_id, &self.impulse);
    }
}

/// The vector in lane `i` of four.
pub fn extract_vector(v: &WVector2, i: usize) -> (r: Vector2)
    requires
        i < 4,
    ensures
        r == v.lane(i as int),
{
    Vector2 { x: wide_extract(&v.x, i), y: wide_extract(&v.y, i) }
}

/// One iteration applies one impulse to both bodies, with opposite signs:
/// the impulse that is added to the accumulated one pushes the first body
/// and pulls the second. What the first body's linear correction gains is
/// that impulse scaled by the body's inverse mass, what the second body's
/// gains is the negation of that impulse scaled by its own; between bodies
/// of one inverse mass the two gains cancel.
pub proof fn lemma_solve_applies_opposite_impulses(c: BallLane, dv1: DeltaVel, dv2: DeltaVel)
    requires
        solve_lane(c, dv1, dv2) is Some,
    ensures
        ({
            let step = solve_lane(c, dv1, dv2).unwrap();
            let correction = impulse_correction(c.inv_lhs, velocity_error(c, dv1, dv2));
            &&& correction is Some
            &&& step.impulse.x == c.impulse.x + correction.unwrap().x
            &&& step.impulse.y == c.impulse.y + correction.unwrap().y
            &&& Some(step.dv1) == pushed(dv1, correction, c.im1, c.gcross1)
            &&& Some(step.dv2) == pulled(dv2, correction, c.im2, c.gcross2)
            &&& step.dv1.linear.x - dv1.linear.x == fx_mul(correction.unwrap().x, c.im1).unwrap()
            &&& step.dv1.linear.y - dv1.linear.y == fx_mul(correction.unwrap().y, c.im1).unwrap()
            &&& step.dv2.linear.x - dv2.linear.x == -fx_mul(correction.unwrap().x, c.im2).unwrap()
            &&& step.dv2.linear.y - dv2.linear.y == -fx_mul(correction.unwrap().y, c.im2).unwrap()
            &&& step.dv1.angular - dv1.angular == cross_vv(Some(c.gcross1), correction).unwrap()
            &&& step.dv2.angular - dv2.angular == -cross_vv(Some(c.gcross2), correction).unwrap()
            &&& c.im1 == c.im2 ==> (step.dv1.linear.x - dv1.linear.x) + (step.dv2.linear.x
                - dv2.linear.x) == 0 && (step.dv1.linear.y - dv1.linear.y) + (step.dv2.linear.y
                - dv2.linear.y) == 0
        }),
{
    reveal(solve_lane);
}

/// Where nothing is wrong with the relative velocity of the anchors, an
/// iteration changes nothing: the accumulated impulse and both corrections
/// stay as they are.
pub proof fn lemma_solve_at_rest(c: BallLane, dv1: DeltaVel, dv2: DeltaVel)
    requires
        velocity_error(c, dv1, dv2) == Some(Vector2 { x: 0, y: 0 }),
    ensures
        solve_lane(c, dv1, dv2) == Some(SolveStep { impulse: c.impulse, dv1, dv2 }),
{
    reveal(solve_lane);
    lemma_no_impulse_changes_nothing(c.inv_lhs, c.impulse, dv1, c.im1, c.gcross1);
    lemma_no_impulse_changes_nothing(c.inv_lhs, c.impulse, dv2, c.im2, c.gcross2);
}

/// The impulse that answers no velocity error is zero, and a zero impulse
/// leaves an accumulated impulse and a body's correction as they are.
pub proof fn lemma_no_impulse_changes_nothing(
    inv_lhs: SdpMatrix2,
    impulse: Vector2,
    dv: DeltaVel,
    inv_mass: i64,
    gcross: Vector2,
)
    ensures
        impulse_correction(inv_lhs, Some(Vector2 { x: 0, y: 0 })) == Some(Vector2 { x: 0, y: 0 }),
        v_sum(Some(impulse), Some(Vector2 { x: 0, y: 0 })) == Some(impulse),
        pushed(dv, Some(Vector2 { x: 0, y: 0 }), inv_mass, gcross) == Some(dv),
        pulled(dv, Some(Vector2 { x: 0, y: 0 }), inv_mass, gcross) == Some(dv),
{
    lemma_times_zero(inv_lhs.m11);
    lemma_times_zero(inv_lhs.m12);
    lemma_times_zero(inv_lhs.m22);
    lemma_times_zero(inv_mass);
    lemma_times_zero(gcross.x);
    lemma_times_zero(gcross.y);
}

/// A product with zero is zero.
pub proof fn lemma_times_zero(a: i64)
    ensures
        fx_mul(a, 0) == Some(0i64),
        fx_mul(0, a) == Some(0i64),
{
    assert(a * 0 == 0) by (nonlinear_arith);
    assert(0 * a == 0) by (nonlinear_arith);
}

} // verus!
