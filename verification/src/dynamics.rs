//! Bodies, joints and velocity corrections as the constraint solver sees
//! them, and their four-lane forms.

use crate::lanes::wide_extract;
use crate::lanes::Lanes;
use crate::math::Isometry2;
use crate::math::Vector2;
use crate::math::WIsometry2;
use crate::math::WVector2;
use vstd::prelude::*;

verus! {

/// Index of a joint in the list of all joints.
pub type JointIndex = usize;

#[derive(Clone, Copy, Debug, PartialEq, Eq, Structural)]
pub struct MassProperties {
    pub inv_mass: i64,
}

/// What the solver reads of a rigid body during one step.
#[derive(Clone, Copy, Debug, PartialEq, Eq, Structural)]
pub struct RigidBody {
    pub position: Isometry2,
    pub linvel: Vector2,
    pub angvel: i64,
    pub world_com: Vector2,
    pub mass_properties: MassProperties,
    /// Square root of the inverse angular inertia, in world space.
    pub world_inv_inertia_sqrt: i64,
    /// The body's place in the list of velocity corrections.
    pub active_set_offset: usize,
}

/// A joint that keeps one point of each body together.
#[derive(Clone, Copy, Debug, PartialEq, Eq, Structural)]
pub struct BallJoint {
    /// The joint's point on the first body, in that body's frame.
    pub local_anchor1: Vector2,
    /// The joint's point on the second body, in that body's frame.
    pub local_anchor2: Vector2,
    /// The impulse that the last step ended with.
    pub impulse: Vector2,
}

#[derive(Clone, Copy, Debug, PartialEq, Eq, Structural)]
pub enum JointParams {
    BallJoint(BallJoint),
    FixedJoint,
}

#[derive(Clone, Copy, Debug, PartialEq, Eq, Structural)]
pub struct Joint {
    pub params: JointParams,
}

#[derive(Clone, Copy, Debug, PartialEq, Eq, Structural)]
pub struct JointGraphEdge {
    pub weight: Joint,
}

#[derive(Clone, Copy, Debug, PartialEq, Eq, Structural)]
pub struct IntegrationParameters {
    /// The share of last step's impulse that a step starts from, between
    /// zero and one.
    pub warmstart_coeff: i64,
}

/// The velocity correction of one body within a step.
#[derive(Clone, Copy, Debug, PartialEq, Eq, Structural)]
pub struct DeltaVel {
    pub linear: Vector2,
    pub angular: i64,
}

/// Four rigid bodies, one in each lane.
#[derive(Clone, Copy, Debug)]
pub struct WRigidBody {
    pub position: WIsometry2,
    pub linvel: WVector2,
    pub angvel: Lanes,
    pub world_com: WVector2,
    pub inv_mass: Lanes,
    pub world_inv_inertia_sqrt: Lanes,
    pub active_set_offset: [usize; 4],
}

/// Four velocity corrections, one in each lane.
#[derive(Clone, Copy, Debug)]
pub struct WDeltaVel {
    pub linear: WVector2,
    pub angular: Lanes,
}

impl WRigidBody {
    /// The body in lane `i`.
    pub open spec fn lane(self, i: int) -> RigidBody {
        RigidBody {
            position: self.position.lane(i),
            linvel: self.linvel.lane(i),
            angvel: self.angvel[i],
            world_com: self.world_com.lane(i),
            mass_properties: MassProperties { inv_mass: self.inv_mass[i] },
            world_inv_inertia_sqrt: self.world_inv_inertia_sqrt[i],
            active_set_offset: self.active_set_offset[i],
        }
    }

    /// Puts four bodies side by side, the first in lane 0.
    pub fn from_bodies(rbs: &[&RigidBody; 4]) -> (r: WRigidBody)
        ensures
            r.lane(0) == *rbs[0],
            r.lane(1) == *rbs[1],
            r.lane(2) == *rbs[2],
            r.lane(3) == *rbs[3],
    {
        let a = rbs[0];
        let b = rbs[1];
        let c = rbs[2];
        let d = rbs[3];
        WRigidBody {
            position: WIsometry2 {
                cos: [
                    a.position.rotation.cos,
                    b.position.rotation.cos,
                    c.position.rotation.cos,
                    d.position.rotation.cos,
                ],
                sin: [
                    a.position.rotation.sin,
                    b.position.rotation.sin,
                    c.position.rotation.sin,
                    d.position.rotation.sin,
                ],
                translation: wide_vector(
                    &a.position.translation,
                    &b.position.translation,
                    &c.position.translation,
                    &d.position.translation,
                ),
            },
            linvel: wide_vector(&a.linvel, &b.linvel, &c.linvel, &d.linvel),
            angvel: [a.angvel, b.angvel, c.angvel, d.angvel],
            world_com: wide_vector(&a.world_com, &b.world_com, &c.world_com, &d.world_com),
            inv_mass: [
                a.mass_properties.inv_mass,
                b.mass_properties.inv_mass,
                c.mass_properties.inv_mass,
                d.mass_properties.inv_mass,
            ],
            world_inv_inertia_sqrt: [
                a.world_inv_inertia_sqrt,
                b.world_inv_inertia_sqrt,
                c.world_inv_inertia_sqrt,
                d.world_inv_inertia_sqrt,
            ],
            active_set_offset: [
                a.active_set_offset,
                b.active_set_offset,
                c.active_set_offset,
                d.active_set_offset,
            ],
        }
    }
}

/// Puts four vectors side by side, the first in lane 0.
pub fn wide_vector(a: &Vector2, b: &Vector2, c: &Vector2, d: &Vector2) -> (r: WVector2)
    ensures
        r.lane(0) == *a,
        r.lane(1) == *b,
        r.lane(2) == *c,
        r.lane(3) == *d,
{
    WVector2 { x: [a.x, b.x, c.x, d.x], y: [a.y, b.y, c.y, d.y] }
}

/// Four updates of a list in turn, lane 0 first: where two lanes name one
/// place, the later lane's value stays.
pub open spec fn stored<T>(base: Seq<T>, at: spec_fn(int) -> int, value: spec_fn(int) -> T) -> Seq<
    T,
> {
    base.update(at(0), value(0)).update(at(1), value(1)).update(at(2), value(2)).update(
        at(3),
        value(3),
    )
}

impl WDeltaVel {
    /// The velocity correction in lane `i`.
    pub open spec fn lane(self, i: int) -> DeltaVel {
        DeltaVel { linear: self.linear.lane(i), angular: self.angular[i] }
    }

    /// Reads the corrections of four bodies out of the list of all
    /// corrections.
    pub fn gather(mj_lambdas: &Vec<DeltaVel>, at: &[usize; 4]) -> (r: WDeltaVel)
        requires
            at[0] < mj_lambdas@.len(),
            at[1] < mj_lambdas@.len(),
            at[2] < mj_lambdas@.len(),
            at[3] < mj_lambdas@.len(),
        ensures
            r.lane(0) == mj_lambdas@[at[0] as int],
            r.lane(1) == mj_lambdas@[at[1] as int],
            r.lane(2) == mj_lambdas@[at[2] as int],
            r.lane(3) == mj_lambdas@[at[3] as int],
    {
        let a = mj_lambdas[at[0]];
        let b = mj_lambdas[at[1]];
        let c = mj_lambdas[at[2]];
        let d = mj_lambdas[at[3]];
        WDeltaVel {
            linear: wide_vector(&a.linear, &b.linear, &c.linear, &d.linear),
            angular: [a.angular, b.angular, c.angular, d.angular],
        }
    }

    /// Writes each lane back to its body's place in the list of all
    /// corrections, lane 0 first.
    pub fn scatter(&self, mj_lambdas: &mut Vec<DeltaVel>, at: &[usize; 4])
        requires
            at[0] < old(mj_lambdas)@.len(),
            at[1] < old(mj_lambdas)@.len(),
            at[2] < old(mj_lambdas)@.len(),
            at[3] < old(mj_lambdas)@.len(),
        ensures
            final(mj_lambdas)@ == stored(
                old(mj_lambdas)@,
                |i: int| at[i] as int,
                |i: int| self.lane(i),
            ),
    {
        let mut ii: usize = 0;
        while ii < 4
            invariant
                ii <= 4,
                mj_lambdas@.len() == old(mj_lambdas)@.len(),
                at[0] < mj_lambdas@.len(),
                at[1] < mj_lambdas@.len(),
                at[2] < mj_lambdas@.len(),
                at[3] < mj_lambdas@.len(),
                ii == 0 ==> mj_lambdas@ == old(mj_lambdas)@,
                ii == 1 ==> mj_lambdas@ == old(mj_lambdas)@.update(at[0] as int, self.lane(0)),
                ii == 2 ==> mj_lambdas@ == old(mj_lambdas)@.update(at[0] as int, self.lane(0)).update(
                    at[1] as int,
                    self.lane(1),
                ),
                ii == 3 ==> mj_lambdas@ == old(mj_lambdas)@.update(at[0] as int, self.lane(0)).update(
                    at[1] as int,
                    self.lane(1),
                ).update(at[2] as int, self.lane(2)),
                ii == 4 ==> mj_lambdas@ == stored(
                    old(mj_lambdas)@,
                    |i: int| at[i] as int,
                    |i: int| self.lane(i),
                ),
            decreases 4 - ii,
        {
            let value = DeltaVel {
                linear: Vector2 {
                    x: wide_extract(&self.linear.x, ii),
                    y: wide_extract(&self.linear.y, ii),
                },
                angular: wide_extract(&self.angular, ii),
            };
            assert(value == self.lane(ii as int));
            mj_lambdas[at[ii]] = value;
            ii += 1;
        }
    }
}

/// A joint with `impulse` recorded in it, where it is a ball joint; any
/// other joint as it was.
pub open spec fn with_impulse(edge: JointGraphEdge, impulse: Vector2) -> JointGraphEdge {
    match edge.weight.params {
        JointParams::BallJoint(ball) => JointGraphEdge {
            weight: Joint {
                params: JointParams::BallJoint(
                    BallJoint {
                        local_anchor1: ball.local_anchor1,
                        local_anchor2: ball.local_anchor2,
                        impulse,
                    },
                ),
            },
        },
        _ => edge,
    }
}

/// The list of joints with `impulse` recorded in joint `id`.
pub open spec fn write_impulse(joints: Seq<JointGraphEdge>, id: int, impulse: Vector2) -> Seq<
    JointGraphEdge,
> {
    joints.update(id, with_impulse(joints[id], impulse))
}

/// The list of joints after each of four lanes has recorded its impulse in
/// its joint, lane 0 first.
pub open spec fn written(
    joints: Seq<JointGraphEdge>,
    at: spec_fn(int) -> int,
    impulse: spec_fn(int) -> Vector2,
) -> Seq<JointGraphEdge> {
    write_impulse(
        write_impulse(
            write_impulse(write_impulse(joints, at(0), impulse(0)), at(1), impulse(1)),
            at(2),
            impulse(2),
        ),
        at(3),
        impulse(3),
    )
}

/// Records each lane's impulse in the lane's joint.
pub fn write_impulses(
    joints_all: &mut Vec<JointGraphEdge>,
    joint_id: &[JointIndex; 4],
    impulse: &WVector2,
)
    requires
        joint_id[0] < old(joints_all)@.len(),
        joint_id[1] < old(joints_all)@.len(),
        joint_id[2] < old(joints_all)@.len(),
        joint_id[3] < old(joints_all)@.len(),
    ensures
        final(joints_all)@ == written(
            old(joints_all)@,
            |i: int| joint_id[i] as int,
            |i: int| impulse.lane(i),
        ),
{
    let ghost start = joints_all@;
    let ghost w1 = write_impulse(start, joint_id[0] as int, impulse.lane(0));
    let ghost w2 = write_impulse(w1, joint_id[1] as int, impulse.lane(1));
    let ghost w3 = write_impulse(w2, joint_id[2] as int, impulse.lane(2));
    let ghost w4 = write_impulse(w3, joint_id[3] as int, impulse.lane(3));
    let mut ii: usize = 0;
    while ii < 4
        invariant
            ii <= 4,
            joints_all@.len() == start.len(),
            joint_id[0] < start.len(),
            joint_id[1] < start.len(),
            joint_id[2] < start.len(),
            joint_id[3] < start.len(),
            w1 == write_impulse(start, joint_id[0] as int, impulse.lane(0)),
            w2 == write_impulse(w1, joint_id[1] as int, impulse.lane(1)),
            w3 == write_impulse(w2, joint_id[2] as int, impulse.lane(2)),
            w4 == write_impulse(w3, joint_id[3] as int, impulse.lane(3)),
            ii == 0 ==> joints_all@ == start,
            ii == 1 ==> joints_all@ == w1,
            ii == 2 ==> joints_all@ == w2,
            ii == 3 ==> joints_all@ == w3,
            ii == 4 ==> joints_all@ == w4,
        decreases 4 - ii,
    {
        let ghost before = joints_all@;
        let id: usize = joint_id[ii];
        let edge = joints_all[id];
        if let JointParams::BallJoint(ball) = edge.weight.params {
            let value = Vector2 { x: wide_extract(&impulse.x, ii), y: wide_extract(&impulse.y, ii) };
            assert(value == impulse.lane(ii as int));
            joints_all[id] = JointGraphEdge {
                weight: Joint {
                    params: JointParams::BallJoint(
                        BallJoint {
                            local_anchor1: ball.local_anchor1,
                            local_anchor2: ball.local_anchor2,
                            impulse: value,
                        },
                    ),
                },
            };
        }
        assert(joints_all@ =~= write_impulse(before, id as int, impulse.lane(ii as int)));
        ii += 1;
    }
}

} // verus!
