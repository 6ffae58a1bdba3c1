//! The velocity constraint of ball joints between a fixed and a movable
//! body, four joints at a time.
//!
//! The first body of each lane is the fixed one: its velocity counts, but it
//! takes no correction. Which of a joint's two anchors lies on it is told
//! lane by lane.

use crate::ball_constraint::angular_mass;
use crate::ball_constraint::ball_lane;
use crate::ball_constraint::lemma_no_impulse_changes_nothing;
use crate::ball_constraint::lemma_times_zero;
use crate::ball_constraint::solve_lane;
use crate::ball_constraint::BallLane;
use crate::ball_constraint::WBallVelocityConstraint;
use crate::ball_constraint::correction_at_anchor;
use crate::ball_constraint::extract_vector;
use crate::ball_constraint::impulse_correction;
use crate::ball_constraint::inverse_of;
use crate::ball_constraint::point_velocity;
use crate::ball_constraint::pulled;
use crate::ball_constraint::seeded_impulse;
use crate::ball_constraint::torque_arm;
use crate::ball_constraint::velocity_error;
use crate::ball_constraint::wide_angular_mass;
use crate::ball_constraint::wide_correction_at_anchor;
use crate::ball_constraint::wide_point_velocity;
use crate::ball_constraint::wide_pulled;
use crate::ball_constraint::wide_world_anchor;
use crate::ball_constraint::world_anchor;
use crate::dynamics::stored;
use crate::dynamics::wide_vector;
use crate::dynamics::write_impulses;
use crate::dynamics::written;
use crate::dynamics::BallJoint;
use crate::dynamics::DeltaVel;
use crate::dynamics::IntegrationParameters;
use crate::dynamics::JointGraphEdge;
use crate::dynamics::JointIndex;
use crate::dynamics::RigidBody;
use crate::dynamics::WDeltaVel;
use crate::dynamics::WRigidBody;
use crate::lanes::all_lanes;
use crate::lanes::fx_mul;
use crate::lanes::lanes_add;
use crate::lanes::lanes_splat;
use crate::lanes::some_lane;
use crate::lanes::sum;
use crate::lanes::wide_extract;
use crate::lanes::Lanes;
use crate::math::cross_matrix;
use crate::math::sdp;
use crate::math::v_diff;
use crate::math::v_sum;
use crate::math::SdpMatrix2;
use crate::math::Vector2;
use crate::math::WSdpMatrix2;
use crate::math::WVector2;
use vstd::prelude::*;

verus! {

/// The constraint of one ball joint on a fixed body: what one lane of a
/// batch holds.
#[derive(Clone, Copy, Debug, PartialEq, Eq, Structural)]
pub struct BallGroundLane {
    /// The movable body's place in the list of velocity corrections.
    pub mj_lambda2: usize,
    pub joint_id: JointIndex,
    pub rhs: Vector2,
    pub impulse: Vector2,
    /// The movable body's anchor, weighted by the root of its inverse
    /// inertia.
    pub gcross2: Vector2,
    /// Inverse of the effective mass matrix.
    pub inv_lhs: SdpMatrix2,
    pub im2: i64,
}

/// The joint's anchor on the fixed body, in that body's frame.
pub open spec fn fixed_anchor(joint: BallJoint, flipped: bool) -> Vector2 {
    if flipped {
        joint.local_anchor2
    } else {
        joint.local_anchor1
    }
}

/// The joint's anchor on the movable body, in that body's frame.
pub open spec fn movable_anchor(joint: BallJoint, flipped: bool) -> Vector2 {
    if flipped {
        joint.local_anchor1
    } else {
        joint.local_anchor2
    }
}

/// The effective mass matrix of a ball joint on a fixed body: the movable
/// body's share alone.
pub open spec fn ground_effective_mass(rb2: RigidBody, anchor2: Option<Vector2>) -> Option<
    SdpMatrix2,
> {
    let a2 = angular_mass(rb2, anchor2);
    let im2 = Some(rb2.mass_properties.inv_mass);
    sdp(sum(im2, a2.0), a2.1, sum(im2, a2.2))
}

/// The constraint of one ball joint between the fixed body `rb1` and the
/// movable body `rb2`, built from the bodies' state at the start of the
/// step. There is none where a value on the way is not representable or the
/// effective mass matrix has no inverse.
#[verifier::opaque]
pub open spec fn ground_lane(
    params: IntegrationParameters,
    joint_id: JointIndex,
    rb1: RigidBody,
    rb2: RigidBody,
    joint: BallJoint,
    flipped: bool,
) -> Option<BallGroundLane> {
    let anchor1 = world_anchor(rb1, fixed_anchor(joint, flipped));
    let anchor2 = world_anchor(rb2, movable_anchor(joint, flipped));
    let rhs = v_diff(point_velocity(rb2, anchor2), point_velocity(rb1, anchor1));
    let inv_lhs = inverse_of(ground_effective_mass(rb2, anchor2));
    let gcross2 = torque_arm(rb2, anchor2);
    let impulse = seeded_impulse(params, joint);
    match (rhs, inv_lhs, gcross2, impulse) {
        (Some(rhs), Some(inv_lhs), Some(gcross2), Some(impulse)) => Some(
            BallGroundLane {
                mj_lambda2: rb2.active_set_offset,
                joint_id,
                rhs,
                impulse,
                gcross2,
                inv_lhs,
                im2: rb2.mass_properties.inv_mass,
            },
        ),
        _ => None,
    }
}

/// The correction of the movable body after the constraint's seeded impulse
/// has pulled it.
pub open spec fn warmstart_ground_lane(c: BallGroundLane, dv2: DeltaVel) -> Option<DeltaVel> {
    pulled(dv2, Some(c.impulse), c.im2, c.gcross2)
}

/// What is still wrong with the velocity of the movable body's anchor.
pub open spec fn ground_velocity_error(c: BallGroundLane, dv2: DeltaVel) -> Option<Vector2> {
    v_sum(correction_at_anchor(dv2, c.gcross2), Some(c.rhs))
}

/// What one solver iteration leaves of a joint on a fixed body: its
/// accumulated impulse and the correction of the movable body.
#[derive(Clone, Copy, Debug, PartialEq, Eq, Structural)]
pub struct GroundSolveStep {
    pub impulse: Vector2,
    pub dv2: DeltaVel,
}

/// One solver iteration on one joint on a fixed body: the impulse that takes
/// the velocity error away is added to the accumulated impulse and pulls the
/// movable body.
#[verifier::opaque]
pub open spec fn solve_ground_lane(c: BallGroundLane, dv2: DeltaVel) -> Option<GroundSolveStep> {
    let correction = impulse_correction(c.inv_lhs, ground_velocity_error(c, dv2));
    match (v_sum(Some(c.impulse), correction), pulled(dv2, correction, c.im2, c.gcross2)) {
        (Some(impulse), Some(dv2)) => Some(GroundSolveStep { impulse, dv2 }),
        _ => None,
    }
}

/// A constraint with another accumulated impulse.
pub open spec fn ground_with_accumulated(c: BallGroundLane, impulse: Vector2) -> BallGroundLane {
    BallGroundLane {
        mj_lambda2: c.mj_lambda2,
        joint_id: c.joint_id,
        rhs: c.rhs,
        impulse,
        gcross2: c.gcross2,
        inv_lhs: c.inv_lhs,
        im2: c.im2,
    }
}

/// The effective mass matrices of four joints on fixed bodies.
pub fn wide_ground_effective_mass(rbs2: &WRigidBody, anchor2: &WVector2) -> (r: Option<
    WSdpMatrix2,
>)
    ensures
        match r {
            Some(w) => all_lanes(
                |i: int|
                    ground_effective_mass(rbs2.lane(i), Some(anchor2.lane(i))) == Some(w.lane(i)),
            ),
            None => some_lane(
                |i: int| ground_effective_mass(rbs2.lane(i), Some(anchor2.lane(i))) is None,
            ),
        },
{
    let a2 = wide_angular_mass(rbs2, anchor2)?;
    let m11 = lanes_add(&rbs2.inv_mass, &a2.m11)?;
    let m22 = lanes_add(&rbs2.inv_mass, &a2.m22)?;
    Some(WSdpMatrix2 { m11, m12: a2.m12, m22 })
}

/// The anchors of four joints on their fixed bodies.
fn wide_fixed_anchor(cparams: &[&BallJoint; 4], flipped: &[bool; 4]) -> (r: WVector2)
    ensures
        all_lanes(|i: int| r.lane(i) == fixed_anchor(*cparams[i], flipped[i])),
{
    wide_vector(
        if flipped[0] { &cparams[0].local_anchor2 } else { &cparams[0].local_anchor1 },
        if flipped[1] { &cparams[1].local_anchor2 } else { &cparams[1].local_anchor1 },
        if flipped[2] { &cparams[2].local_anchor2 } else { &cparams[2].local_anchor1 },
        if flipped[3] { &cparams[3].local_anchor2 } else { &cparams[3].local_anchor1 },
    )
}

/// The anchors of four joints on their movable bodies.
fn wide_movable_anchor(cparams: &[&BallJoint; 4], flipped: &[bool; 4]) -> (r: WVector2)
    ensures
        all_lanes(|i: int| r.lane(i) == movable_anchor(*cparams[i], flipped[i])),
{
    wide_vector(
        if flipped[0] { &cparams[0].local_anchor1 } else { &cparams[0].local_anchor2 },
        if flipped[1] { &cparams[1].local_anchor1 } else { &cparams[1].local_anchor2 },
        if flipped[2] { &cparams[2].local_anchor1 } else { &cparams[2].local_anchor2 },
        if flipped[3] { &cparams[3].local_anchor1 } else { &cparams[3].local_anchor2 },
    )
}

/// Four ball joint constraints on fixed bodies, solved together.
#[derive(Debug)]
pub struct WBallVelocityGroundConstraint {
    mj_lambda2: [usize; 4],
    joint_id: [JointIndex; 4],
    rhs: WVector2,
    impulse: WVector2,
    gcross2: WVector2,
    inv_lhs: WSdpMatrix2,
    im2: Lanes,
}

impl WBallVelocityGroundConstraint {
    /// The constraint in lane `i`.
    pub closed spec fn lane(self, i: int) -> BallGroundLane {
        BallGroundLane {
            mj_lambda2: self.mj_lambda2[i],
            joint_id: self.joint_id[i],
            rhs: self.rhs.lane(i),
            impulse: self.impulse.lane(i),
            gcross2: self.gcross2.lane(i),
            inv_lhs: self.inv_lhs.lane(i),
            im2: self.im2[i],
        }
    }

    /// Builds the constraints of four joints from the state of their bodies,
    /// each lane as `ground_lane` says; `rbs1` are the fixed bodies, and
    /// `flipped` tells of each lane whether the joint's second anchor lies
    /// on the fixed body. Where one lane has no constraint, there is no
    /// batch.
    pub fn from_params(
        params: &IntegrationParameters,
        joint_id: [JointIndex; 4],
        rbs1: [&RigidBody; 4],
        rbs2: [&RigidBody; 4],
        cparams: [&BallJoint; 4],
        flipped: [bool; 4],
    ) -> (r: Option<Self>)
        ensures
            match r {
                Some(c) => all_lanes(
                    |i: int|
                        ground_lane(
                            *params,
                            joint_id[i],
                            *rbs1[i],
                            *rbs2[i],
                            *cparams[i],
                            flipped[i],
                        ) == Some(c.lane(i)),
                ),
                None => some_lane(
                    |i: int|
                        ground_lane(
                            *params,
                            joint_id[i],
                            *rbs1[i],
                            *rbs2[i],
                            *cparams[i],
                            flipped[i],
                        ) is None,
                ),
            },
    {
        proof {
            reveal(ground_lane);
        }
        let b1 = WRigidBody::from_bodies(&rbs1);
        let b2 = WRigidBody::from_bodies(&rbs2);
        let local_anchor1 = wide_fixed_anchor(&cparams, &flipped);
        let local_anchor2 = wide_movable_anchor(&cparams, &flipped);
        let impulse = wide_vector(
            &cparams[0].impulse,
            &cparams[1].impulse,
            &cparams[2].impulse,
            &cparams[3].impulse,
        );
        let anchor1 = wide_world_anchor(&b1, &local_anchor1)?;
        let anchor2 = wide_world_anchor(&b2, &local_anchor2)?;
        let vel1 = wide_point_velocity(&b1, &anchor1)?;
        let vel2 = wide_point_velocity(&b2, &anchor2)?;
        let rhs = vel2.less(&vel1)?;
        let gcross2 = anchor2.scaled(&b2.world_inv_inertia_sqrt)?;
        let lhs = wide_ground_effective_mass(&b2, &anchor2)?;
        let inv_lhs = lhs.inverse()?;
        let coeff = lanes_splat(params.warmstart_coeff);
        let impulse = impulse.scaled(&coeff)?;
        Some(
            WBallVelocityGroundConstraint {
                mj_lambda2: b2.active_set_offset,
                joint_id,
                rhs,
                impulse,
                gcross2,
                inv_lhs,
                im2: b2.inv_mass,
            },
        )
    }

    /// Lane `i` of the batch.
    pub fn lane_at(&self, i: usize) -> (r: BallGroundLane)
        requires
            i < 4,
        ensures
            r == self.lane(i as int),
    {
        BallGroundLane {
            mj_lambda2: self.mj_lambda2[i],
            joint_id: self.joint_id[i],
            rhs: extract_vector(&self.rhs, i),
            impulse: extract_vector(&self.impulse, i),
            gcross2: extract_vector(&self.gcross2, i),
            inv_lhs: SdpMatrix2 {
                m11: wide_extract(&self.inv_lhs.m11, i),
                m12: wide_extract(&self.inv_lhs.m12, i),
                m22: wide_extract(&self.inv_lhs.m22, i),
            },
            im2: wide_extract(&self.im2, i),
        }
    }

    /// Whether every lane's movable body has a place in a list of `len`
    /// velocity corrections.
    pub open spec fn bodies_within(self, len: nat) -> bool {
        all_lanes(|i: int| self.lane(i).mj_lambda2 < len)
    }

    /// What `warmstart` makes of lane `i`'s movable body.
    pub open spec fn warmstarted(self, mj_lambdas: Seq<DeltaVel>, i: int) -> Option<DeltaVel> {
        warmstart_ground_lane(self.lane(i), mj_lambdas[self.lane(i).mj_lambda2 as int])
    }

    /// What `solve` makes of lane `i`.
    pub open spec fn solved(self, mj_lambdas: Seq<DeltaVel>, i: int) -> Option<GroundSolveStep> {
        solve_ground_lane(self.lane(i), mj_lambdas[self.lane(i).mj_lambda2 as int])
    }

    /// Applies the seeded impulse of each lane to the correction of the
    /// lane's movable body, as `warmstart_ground_lane` says. All lanes read
    /// before any writes, and are written lane by lane. Returns whether it
    /// was done: where one lane has no result, nothing is written.
    pub fn warmstart(&self, mj_lambdas: &mut Vec<DeltaVel>) -> (done: bool)
        requires
            self.bodies_within(old(mj_lambdas)@.len()),
        ensures
            done == all_lanes(|i: int| self.warmstarted(old(mj_lambdas)@, i) is Some),
            !done ==> final(mj_lambdas)@ == old(mj_lambdas)@,
            done ==> final(mj_lambdas)@ == stored(
                old(mj_lambdas)@,
                |i: int| self.lane(i).mj_lambda2 as int,
                |i: int| self.warmstarted(old(mj_lambdas)@, i).unwrap(),
            ),
    {
        let mj_lambda2 = WDeltaVel::gather(mj_lambdas, &self.mj_lambda2);
        match wide_pulled(&mj_lambda2, &self.impulse, &self.im2, &self.gcross2) {
            Some(new2) => {
                new2.scatter(mj_lambdas, &self.mj_lambda2);
                true
            },
            None => false,
        }
    }

    /// One solver iteration on each lane, as `solve_ground_lane` says. All
    /// lanes read before any writes, and are written lane by lane. Returns
    /// whether it was done: where one lane has no result, nothing changes.
    pub fn solve(&mut self, mj_lambdas: &mut Vec<DeltaVel>) -> (done: bool)
        requires
            old(self).bodies_within(old(mj_lambdas)@.len()),
        ensures
            done == all_lanes(|i: int| old(self).solved(old(mj_lambdas)@, i) is Some),
            !done ==> *final(self) == *old(self) && final(mj_lambdas)@ == old(mj_lambdas)@,
            done ==> all_lanes(
                |i: int|
                    final(self).lane(i) == ground_with_accumulated(
                        old(self).lane(i),
                        old(self).solved(old(mj_lambdas)@, i).unwrap().impulse,
                    ),
            ),
            done ==> final(mj_lambdas)@ == stored(
                old(mj_lambdas)@,
                |i: int| old(self).lane(i).mj_lambda2 as int,
                |i: int| old(self).solved(old(mj_lambdas)@, i).unwrap().dv2,
            ),
    {
        let mj_lambda2 = WDeltaVel::gather(mj_lambdas, &self.mj_lambda2);
        match self.step(&mj_lambda2) {
            Some((impulse, new2)) => {
                self.commit(mj_lambdas, impulse, &new2);
                true
            },
            None => false,
        }
    }

    /// Takes over the result of an iteration: the accumulated impulses and
    /// the corrections of the movable bodies.
    fn commit(&mut self, mj_lambdas: &mut Vec<DeltaVel>, impulse: WVector2, new2: &WDeltaVel)
        requires
            old(self).bodies_within(old(mj_lambdas)@.len()),
        ensures
            all_lanes(
                |i: int|
                    final(self).lane(i) == ground_with_accumulated(
                        old(self).lane(i),
                        impulse.lane(i),
                    ),
            ),
            final(mj_lambdas)@ == stored(
                old(mj_lambdas)@,
                |i: int| old(self).lane(i).mj_lambda2 as int,
                |i: int| new2.lane(i),
            ),
    {
        self.impulse = impulse;
        new2.scatter(mj_lambdas, &self.mj_lambda2);
    }

    /// One solver iteration on what was gathered of the movable bodies.
    fn step(&self, mj_lambda2: &WDeltaVel) -> (r: Option<(WVector2, WDeltaVel)>)
        ensures
            match r {
                Some((impulse, new2)) => all_lanes(
                    |i: int|
                        solve_ground_lane(self.lane(i), mj_lambda2.lane(i)) == Some(
                            GroundSolveStep { impulse: impulse.lane(i), dv2: new2.lane(i) },
                        ),
                ),
                None => some_lane(
                    |i: int| solve_ground_lane(self.lane(i), mj_lambda2.lane(i)) is None,
                ),
            },
    {
        proof {
            reveal(solve_ground_lane);
        }
        let vel2 = wide_correction_at_anchor(mj_lambda2, &self.gcross2)?;
        let dvel = vel2.plus(&self.rhs)?;
        let correction = self.inv_lhs.times(&dvel)?;
        let impulse = self.impulse.plus(&correction)?;
        let new2 = wide_pulled(mj_lambda2, &correction, &self.im2, &self.gcross2)?;
        Some((impulse, new2))
    }

    /// Whether every lane's joint has a place in a list of `len` joints.
    pub open spec fn joints_within(self, len: nat) -> bool {
        all_lanes(|i: int| self.lane(i).joint_id < len)
    }

    /// Records each lane's accumulated impulse in the lane's joint, lane 0
    /// first, for the next step to start from. A joint that is no ball
    /// joint is left as it is.
    pub fn writeback_impulses(&self, joints_all: &mut Vec<JointGraphEdge>)
        requires
            self.joints_within(old(joints_all)@.len()),
        ensures
            final(joints_all)@ == written(
                old(joints_all)@,
                |i: int| self.lane(i).joint_id as int,
                |i: int| self.lane(i).impulse,
            ),
    {
        write_impulses(joints_all, &self.joint_id, &self.impulse);
    }
}

/// A joint between two bodies of which the first has neither inverse mass
/// nor inverse inertia has the constraint of a joint on a fixed body: where
/// the constraint between two movable bodies exists, the one on a fixed
/// body exists too, with the same target velocity, inverse effective mass,
/// seeded impulse and terms of the second body, and the first body's
/// torque arm is zero.
pub proof fn lemma_massless_first_body_is_ground(
    params: IntegrationParameters,
    joint_id: JointIndex,
    rb1: RigidBody,
    rb2: RigidBody,
    joint: BallJoint,
)
    requires
        rb1.mass_properties.inv_mass == 0,
        rb1.world_inv_inertia_sqrt == 0,
        ball_lane(params, joint_id, rb1, rb2, joint) is Some,
    ensures
        ({
            let c = ball_lane(params, joint_id, rb1, rb2, joint).unwrap();
            let g = ground_lane(params, joint_id, rb1, rb2, joint, false);
            &&& g is Some
            &&& g.unwrap().rhs == c.rhs
            &&& g.unwrap().inv_lhs == c.inv_lhs
            &&& g.unwrap().impulse == c.impulse
            &&& g.unwrap().gcross2 == c.gcross2
            &&& g.unwrap().im2 == c.im2
            &&& g.unwrap().mj_lambda2 == c.mj_lambda2
            &&& g.unwrap().joint_id == c.joint_id
            &&& c.im1 == 0
            &&& c.gcross1 == (Vector2 { x: 0, y: 0 })
        }),
{
    reveal(ball_lane);
    reveal(ground_lane);
    let anchor1 = world_anchor(rb1, joint.local_anchor1);
    let anchor2 = world_anchor(rb2, joint.local_anchor2);
    assert(anchor1 is Some);
    assert(anchor2 is Some);
    lemma_times_zero(0);
    lemma_times_zero(anchor1.unwrap().x);
    lemma_times_zero(anchor1.unwrap().y);
    let a1 = angular_mass(rb1, anchor1);
    assert(a1.0 is Some && a1.1 is Some && a1.2 is Some);
    let c = cross_matrix(anchor1).unwrap();
    let xx = fx_mul(c.x, c.x).unwrap();
    let xy = fx_mul(c.x, c.y).unwrap();
    let yy = fx_mul(c.y, c.y).unwrap();
    lemma_times_zero(xx);
    lemma_times_zero(xy);
    lemma_times_zero(yy);
    assert(a1.0 == Some(0i64) && a1.1 == Some(0i64) && a1.2 == Some(0i64));
}

/// With such a first body, whose own correction is zero, an iteration of
/// the constraint between two bodies does what an iteration of the
/// constraint on a fixed body does: the same accumulated impulse and the
/// same correction of the second body, and the first body's correction
/// stays zero.
pub proof fn lemma_massless_solve_is_ground_solve(c: BallLane, g: BallGroundLane, dv2: DeltaVel)
    requires
        c.im1 == 0,
        c.gcross1 == (Vector2 { x: 0, y: 0 }),
        g.rhs == c.rhs,
        g.inv_lhs == c.inv_lhs,
        g.impulse == c.impulse,
        g.gcross2 == c.gcross2,
        g.im2 == c.im2,
        solve_lane(c, DeltaVel { linear: Vector2 { x: 0, y: 0 }, angular: 0 }, dv2) is Some,
    ensures
        ({
            let rest = DeltaVel { linear: Vector2 { x: 0, y: 0 }, angular: 0 };
            let step = solve_lane(c, rest, dv2).unwrap();
            &&& solve_ground_lane(g, dv2) == Some(
                GroundSolveStep { impulse: step.impulse, dv2: step.dv2 },
            )
            &&& step.dv1 == rest
        }),
{
    reveal(solve_lane);
    reveal(solve_ground_lane);
    lemma_times_zero(0);
    let rest = DeltaVel { linear: Vector2 { x: 0, y: 0 }, angular: 0 };
    let correction = impulse_correction(c.inv_lhs, velocity_error(c, rest, dv2));
    assert(correction is Some);
    lemma_times_zero(correction.unwrap().x);
    lemma_times_zero(correction.unwrap().y);
}

/// Where nothing is wrong with the velocity of the movable body's anchor, an
/// iteration changes nothing.
pub proof fn lemma_ground_solve_at_rest(c: BallGroundLane, dv2: DeltaVel)
    requires
        ground_velocity_error(c, dv2) == Some(Vector2 { x: 0, y: 0 }),
    ensures
        solve_ground_lane(c, dv2) == Some(GroundSolveStep { impulse: c.impulse, dv2 }),
{
    reveal(solve_ground_lane);
    lemma_no_impulse_changes_nothing(c.inv_lhs, c.impulse, dv2, c.im2, c.gcross2);
}

/// Whether a constraint between two bodies and a constraint on a fixed
/// body are the same but for the first body, which has neither inverse mass
/// nor torque arm.
pub open spec fn same_but_fixed(c: BallLane, g: BallGroundLane) -> bool {
    &&& c.im1 == 0
    &&& c.gcross1 == (Vector2 { x: 0, y: 0 })
    &&& g.rhs == c.rhs
    &&& g.inv_lhs == c.inv_lhs
    &&& g.impulse == c.impulse
    &&& g.gcross2 == c.gcross2
    &&& g.im2 == c.im2
    &&& g.mj_lambda2 == c.mj_lambda2
    &&& g.joint_id == c.joint_id
}

/// The same for whole batches: where the first body of every lane has
/// neither inverse mass nor inverse inertia and no lane is flipped, and the
/// batch between two bodies has been built, the batch on fixed bodies
/// built from the same bodies and joints exists and agrees with it in
/// every lane. `two` and `ground` are what the two `from_params` returned.
pub proof fn lemma_massless_batch_is_ground_batch(
    params: IntegrationParameters,
    joint_id: [JointIndex; 4],
    rbs1: [&RigidBody; 4],
    rbs2: [&RigidBody; 4],
    cparams: [&BallJoint; 4],
    flipped: [bool; 4],
    two: WBallVelocityConstraint,
    ground: Option<WBallVelocityGroundConstraint>,
)
    requires
        all_lanes(
            |i: int|
                rbs1[i].mass_properties.inv_mass == 0 && rbs1[i].world_inv_inertia_sqrt == 0
                    && !flipped[i],
        ),
        all_lanes(
            |i: int|
                ball_lane(params, joint_id[i], *rbs1[i], *rbs2[i], *cparams[i]) == Some(
                    two.lane(i),
                ),
        ),
        match ground {
            Some(g) => all_lanes(
                |i: int|
                    ground_lane(
                        params,
                        joint_id[i],
                        *rbs1[i],
                        *rbs2[i],
                        *cparams[i],
                        flipped[i],
                    ) == Some(g.lane(i)),
            ),
            None => some_lane(
                |i: int|
                    ground_lane(
                        params,
                        joint_id[i],
                        *rbs1[i],
                        *rbs2[i],
                        *cparams[i],
                        flipped[i],
                    ) is None,
            ),
        },
    ensures
        ground is Some,
        all_lanes(|i: int| same_but_fixed(two.lane(i), ground.unwrap().lane(i))),
{
    lemma_massless_first_body_is_ground(params, joint_id[0], *rbs1[0], *rbs2[0], *cparams[0]);
    lemma_massless_first_body_is_ground(params, joint_id[1], *rbs1[1], *rbs2[1], *cparams[1]);
    lemma_massless_first_body_is_ground(params, joint_id[2], *rbs1[2], *rbs2[2], *cparams[2]);
    lemma_massless_first_body_is_ground(params, joint_id[3], *rbs1[3], *rbs2[3], *cparams[3]);
}

/// One iteration on two such batches does the same, where the corrections
/// of the first bodies are zero: the iteration on fixed bodies is done where
/// the one between two bodies is, the accumulated impulses agree in every
/// lane, and both leave the same list of corrections. Where no first body
/// shares its place in the list with a second body, the first bodies'
/// corrections are still zero, so that the next iteration agrees again.
pub proof fn lemma_massless_batch_solve_is_ground_solve(
    two: WBallVelocityConstraint,
    ground: WBallVelocityGroundConstraint,
    mj_lambdas: Seq<DeltaVel>,
)
    requires
        two.bodies_within(mj_lambdas.len()),
        all_lanes(|i: int| same_but_fixed(two.lane(i), ground.lane(i))),
        all_lanes(
            |i: int|
                mj_lambdas[two.lane(i).mj_lambda1 as int] == (DeltaVel {
                    linear: Vector2 { x: 0, y: 0 },
                    angular: 0,
                }),
        ),
        all_lanes(|i: int| two.solved(mj_lambdas, i) is Some),
    ensures
        all_lanes(
            |i: int|
                ground.solved(mj_lambdas, i) == Some(
                    GroundSolveStep {
                        impulse: two.solved(mj_lambdas, i).unwrap().impulse,
                        dv2: two.solved(mj_lambdas, i).unwrap().dv2,
                    },
                ),
        ),
        stored(
            stored(
                mj_lambdas,
                |i: int| two.lane(i).mj_lambda1 as int,
                |i: int| two.solved(mj_lambdas, i).unwrap().dv1,
            ),
            |i: int| two.lane(i).mj_lambda2 as int,
            |i: int| two.solved(mj_lambdas, i).unwrap().dv2,
        ) == stored(
            mj_lambdas,
            |i: int| ground.lane(i).mj_lambda2 as int,
            |i: int| ground.solved(mj_lambdas, i).unwrap().dv2,
        ),
        all_lanes(
            |i: int|
                all_lanes(|j: int| two.lane(j).mj_lambda2 != two.lane(i).mj_lambda1) ==> stored(
                    mj_lambdas,
                    |i: int| ground.lane(i).mj_lambda2 as int,
                    |i: int| ground.solved(mj_lambdas, i).unwrap().dv2,
                )[two.lane(i).mj_lambda1 as int] == (DeltaVel {
                    linear: Vector2 { x: 0, y: 0 },
                    angular: 0,
                }),
        ),
{
    let rest = DeltaVel { linear: Vector2 { x: 0, y: 0 }, angular: 0 };
    lemma_massless_solve_is_ground_solve(
        two.lane(0),
        ground.lane(0),
        mj_lambdas[two.lane(0).mj_lambda2 as int],
    );
    lemma_massless_solve_is_ground_solve(
        two.lane(1),
        ground.lane(1),
        mj_lambdas[two.lane(1).mj_lambda2 as int],
    );
    lemma_massless_solve_is_ground_solve(
        two.lane(2),
        ground.lane(2),
        mj_lambdas[two.lane(2).mj_lambda2 as int],
    );
    lemma_massless_solve_is_ground_solve(
        two.lane(3),
        ground.lane(3),
        mj_lambdas[two.lane(3).mj_lambda2 as int],
    );
    let first = stored(
        mj_lambdas,
        |i: int| two.lane(i).mj_lambda1 as int,
        |i: int| two.solved(mj_lambdas, i).unwrap().dv1,
    );
    assert(two.solved(mj_lambdas, 0).unwrap().dv1 == rest);
    assert(two.solved(mj_lambdas, 1).unwrap().dv1 == rest);
    assert(two.solved(mj_lambdas, 2).unwrap().dv1 == rest);
    assert(two.solved(mj_lambdas, 3).unwrap().dv1 == rest);
    assert(first =~= mj_lambdas);
}

} // verus!
