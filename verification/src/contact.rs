//! Contact manifolds and the records that identify what they belong to.

use crate::math::Vector2;
use vstd::prelude::*;

verus! {

/// The two colliders of a contact pair, by their handles.
#[derive(Clone, Copy, Debug, PartialEq, Eq, Structural)]
pub struct ColliderPair {
    pub collider1: usize,
    pub collider2: usize,
}

impl ColliderPair {
    /// The collider that is the mesh: the second where the pair is flipped,
    /// else the first.
    pub open spec fn mesh(self, flipped: bool) -> usize {
        if flipped {
            self.collider2
        } else {
            self.collider1
        }
    }

    pub fn mesh_collider(&self, flipped: bool) -> (r: usize)
        ensures
            r == self.mesh(flipped),
    {
        if flipped {
            self.collider2
        } else {
            self.collider1
        }
    }
}

/// One contact point of a manifold, with the impulse accumulated on it.
#[derive(Clone, Copy, Debug, PartialEq, Eq, Structural)]
pub struct Contact {
    pub local_p1: Vector2,
    pub local_p2: Vector2,
    pub dist: i64,
    pub impulse: i64,
}

/// The contacts between one sub-shape of each collider of a pair.
#[derive(Debug)]
pub struct ContactManifold {
    /// The pair as this manifold records it; its order may differ from the
    /// order in which the pair is handed to a generator.
    pub pair: ColliderPair,
    /// The sub-shapes that the contacts lie on. A manifold of a mesh holds
    /// the triangle in one place and zero in the other; `recorded_triangle`
    /// says in which.
    pub subshape_index_pair: (usize, usize),
    pub points: Vec<Contact>,
}

impl ContactManifold {
    /// Whether this is a manifold without contacts for the given pair and
    /// sub-shapes.
    pub open spec fn is_empty_for(self, pair: ColliderPair, subshape1: usize, subshape2: usize) -> bool {
        &&& self.pair == pair
        &&& self.subshape_index_pair == (subshape1, subshape2)
        &&& self.points@.len() == 0
    }

    pub fn with_subshape_indices(pair: ColliderPair, subshape1: usize, subshape2: usize) -> (r: Self)
        ensures
            r.is_empty_for(pair, subshape1, subshape2),
    {
        ContactManifold { pair, subshape_index_pair: (subshape1, subshape2), points: Vec::new() }
    }

    /// The triangle that a manifold of a mesh records. `collider1` is the
    /// first collider of the pair in hand and `flipped` says that the mesh
    /// is that pair's second collider. A manifold that lists the colliders
    /// as the pair does holds the triangle in the first place where the
    /// mesh is the second collider, and in the second place where it is the
    /// first; one that lists them the other way round holds it in the other
    /// place.
    pub open spec fn recorded_triangle(self, collider1: usize, flipped: bool) -> usize {
        if (self.pair.collider1 == collider1) == flipped {
            self.subshape_index_pair.0
        } else {
            self.subshape_index_pair.1
        }
    }
}

/// One call of a primitive contact generator that is due: which manifold it
/// fills, for which triangle of the mesh, and whether the manifold lists the
/// other shape before the mesh, so that the generator has to take the other
/// shape as its first body and the triangle as its second.
#[derive(Clone, Copy, Debug, PartialEq, Eq, Structural)]
pub struct PrimitiveDispatch {
    pub manifold: usize,
    pub triangle: usize,
    pub swapped: bool,
}

} // verus!
