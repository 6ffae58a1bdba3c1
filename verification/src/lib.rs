//! The constraint solver of ball joints and the contact bookkeeping of
//! triangle meshes for a planar rigid-body simulation.
//!
//! All quantities are fixed-point numbers, 64 bits wide with 16 fractional
//! bits. The solver works on batches of four joints, one joint in each lane
//! of a wide value, and leaves the lane-wise arithmetic to `simba`. A
//! computation that meets a value it cannot represent has no result and
//! changes nothing.
//!
//! Only the planar case is covered: vectors have two components, angular
//! quantities are scalars, and the effective mass matrix of a joint is
//! 2x2. The spatial case, with three components and a 3x3 matrix, is left
//! out.
//!
//! - [`lanes`]: the fixed-point arithmetic, on one value and on four lanes.
//! - [`math`]: vectors, isometries and symmetric matrices.
//! - [`dynamics`]: bodies, joints and velocity corrections.
//! - [`ball_constraint`], [`ball_ground_constraint`]: the batched velocity
//!   constraints of ball joints.
//! - [`aabb`], [`contact`], [`trimesh`]: the manifolds between a mesh and
//!   another shape, kept in line with the mesh's candidate triangles.

pub mod aabb;
pub mod ball_constraint;
pub mod ball_ground_constraint;
pub mod contact;
pub mod dynamics;
pub mod lanes;
pub mod math;
pub mod trimesh;
