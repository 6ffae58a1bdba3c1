//! Contact manifolds between a triangle mesh and another shape, kept from
//! step to step.
//!
//! The mesh's spatial hierarchy and the primitive contact generators are not
//! part of this module. The caller asks `query_box` whether the hierarchy has
//! to be queried, hands the triangles found to `do_generate_contacts`, and
//! runs the generator calls that come back.

use crate::aabb::Aabb;
use crate::contact::ColliderPair;
use crate::contact::ContactManifold;
use crate::contact::PrimitiveDispatch;
use vstd::prelude::*;

verus! {

/// What a mesh and shape pair keeps between steps: the box of the last
/// query, in the mesh's frame, and the triangles that the query found.
#[derive(Debug)]
pub struct TrimeshShapeContactGeneratorWorkspace {
    pub interferences: Vec<usize>,
    pub local_aabb2: Aabb,
}

pub open spec fn strictly_increasing(s: Seq<usize>) -> bool {
    forall|i: int, j: int| 0 <= i < j < s.len() ==> s[i] < s[j]
}

pub open spec fn sorted(s: Seq<usize>) -> bool {
    forall|i: int, j: int| 0 <= i < j < s.len() ==> s[i] <= s[j]
}

/// The triangle of each manifold, as the manifolds record it.
pub open spec fn recorded_ids(
    manifolds: Seq<ContactManifold>,
    collider1: usize,
    flipped: bool,
) -> Seq<usize> {
    Seq::new(manifolds.len(), |i: int| manifolds[i].recorded_triangle(collider1, flipped))
}

/// The triangles that the manifolds in hand were made for: the cached list,
/// or, where that list was lost while manifolds remain, what the manifolds
/// record.
pub open spec fn previous_ids(
    cached: Seq<usize>,
    manifolds: Seq<ContactManifold>,
    collider1: usize,
    flipped: bool,
) -> Seq<usize> {
    if cached.len() == 0 && manifolds.len() > 0 {
        recorded_ids(manifolds, collider1, flipped)
    } else {
        cached
    }
}

/// Whether `m` is the manifold owed to `triangle`: the one kept from before
/// where the triangle was a candidate before, else an empty one.
pub open spec fn manifold_owed(
    m: ContactManifold,
    triangle: usize,
    old_ids: Seq<usize>,
    old_manifolds: Seq<ContactManifold>,
    pair: ColliderPair,
    flipped: bool,
) -> bool {
    &&& (forall|j: int| 0 <= j < old_ids.len() ==> old_ids[j] != triangle) ==> if flipped {
        m.is_empty_for(pair, triangle, 0)
    } else {
        m.is_empty_for(pair, 0, triangle)
    }
    &&& forall|j: int|
        0 <= j < old_ids.len() && old_ids[j] == triangle && (forall|h: int|
            0 <= h < j ==> old_ids[h] != triangle) ==> j < old_manifolds.len() && m
            == old_manifolds[j]
}

/// Whether `manifolds` is what reconciling leaves: one manifold for each
/// entry of `new_ids` that names a triangle of the mesh, in the order of the
/// list, and none for the entries at or beyond the triangle count, which all
/// stand at its end.
pub open spec fn reconciled(
    manifolds: Seq<ContactManifold>,
    new_ids: Seq<usize>,
    old_ids: Seq<usize>,
    old_manifolds: Seq<ContactManifold>,
    num_triangles: usize,
    pair: ColliderPair,
    flipped: bool,
) -> bool {
    &&& manifolds.len() <= new_ids.len()
    &&& forall|i: int| 0 <= i < manifolds.len() ==> new_ids[i] < num_triangles
    &&& forall|i: int| manifolds.len() <= i < new_ids.len() ==> new_ids[i] >= num_triangles
    &&& forall|i: int|
        0 <= i < manifolds.len() ==> manifold_owed(
            #[trigger] manifolds[i],
            new_ids[i],
            old_ids,
            old_manifolds,
            pair,
            flipped,
        )
}

/// The generator call for entry `i` of a list of triangles: it is swapped
/// where the manifold does not list the mesh's collider first.
pub open spec fn dispatch_at(
    ids: Seq<usize>,
    manifolds: Seq<ContactManifold>,
    mesh_collider: usize,
    i: int,
) -> PrimitiveDispatch {
    PrimitiveDispatch {
        manifold: i as usize,
        triangle: ids[i],
        swapped: mesh_collider != manifolds[i].pair.collider1,
    }
}

/// The generator calls that are due for a list of triangles: one for each
/// entry that names a triangle of the mesh, in the order of the list, on the
/// manifold at the entry's own place.
pub open spec fn dispatch_plan(
    ids: Seq<usize>,
    manifolds: Seq<ContactManifold>,
    num_triangles: usize,
    mesh_collider: usize,
) -> Seq<PrimitiveDispatch>
    decreases ids.len(),
{
    if ids.len() == 0 {
        Seq::empty()
    } else {
        let before = dispatch_plan(ids.drop_last(), manifolds, num_triangles, mesh_collider);
        if ids.last() < num_triangles {
            before.push(dispatch_at(ids, manifolds, mesh_collider, ids.len() - 1))
        } else {
            before
        }
    }
}

impl TrimeshShapeContactGeneratorWorkspace {
    /// A workspace that has seen no query: its box contains no shape's box.
    pub fn new() -> (r: Self)
        ensures
            r.interferences@.len() == 0,
            r.local_aabb2.mins.x == i64::MAX,
            r.local_aabb2.mins.y == i64::MAX,
            r.local_aabb2.maxs.x == -i64::MAX,
            r.local_aabb2.maxs.y == -i64::MAX,
    {
        TrimeshShapeContactGeneratorWorkspace {
            interferences: Vec::new(),
            local_aabb2: Aabb::new_invalid(),
        }
    }
}

/// The same manifolds in the opposite order.
fn reversed(v: Vec<ContactManifold>) -> (r: Vec<ContactManifold>)
    ensures
        r@.len() == v@.len(),
        forall|a: int| 0 <= a < r@.len() ==> r@[a] == v@[v@.len() - 1 - a],
{
    let ghost orig = v@;
    let mut v = v;
    let mut r: Vec<ContactManifold> = Vec::new();
    while v.len() > 0
        invariant
            r@.len() + v@.len() == orig.len(),
            forall|a: int| 0 <= a < r@.len() ==> r@[a] == orig[orig.len() - 1 - a],
            forall|a: int| 0 <= a < v@.len() ==> v@[a] == orig[a],
        decreases v@.len(),
    {
        let m = v.pop().unwrap();
        r.push(m);
    }
    r
}

/// The triangle of each manifold, read from what the manifolds record.
pub fn subshape_ids(manifolds: &Vec<ContactManifold>, collider1: usize, flipped: bool) -> (r: Vec<
    usize,
>)
    ensures
        r@ == recorded_ids(manifolds@, collider1, flipped),
{
    let mut r: Vec<usize> = Vec::new();
    let mut i: usize = 0;
    while i < manifolds.len()
        invariant
            i <= manifolds@.len(),
            r@.len() == i,
            forall|a: int|
                0 <= a < i ==> r@[a] == manifolds@[a].recorded_triangle(collider1, flipped),
        decreases manifolds@.len() - i,
    {
        let m = &manifolds[i];
        let id: usize = if (m.pair.collider1 == collider1) == flipped {
            m.subshape_index_pair.0
        } else {
            m.subshape_index_pair.1
        };
        r.push(id);
        i += 1;
    }
    assert(r@ =~= recorded_ids(manifolds@, collider1, flipped));
    r
}

/// Brings the manifolds of a pair in line with a new list of candidate
/// triangles by walking the new list and the previous one side by side: a
/// triangle that was a candidate before keeps its manifold, a new one gets an
/// empty manifold, and the manifolds of triangles that are no candidates any
/// more are dropped.
pub fn reconcile_manifolds(
    new_ids: &Vec<usize>,
    old_ids: &Vec<usize>,
    old_manifolds: Vec<ContactManifold>,
    num_triangles: usize,
    pair: ColliderPair,
    flipped: bool,
) -> (r: Vec<ContactManifold>)
    requires
        strictly_increasing(new_ids@),
        sorted(old_ids@),
        old_ids@.len() == old_manifolds@.len(),
    ensures
        reconciled(r@, new_ids@, old_ids@, old_manifolds@, num_triangles, pair, flipped),
{
    let ghost olds = old_manifolds@;
    let mut rest = reversed(old_manifolds);
    let mut out: Vec<ContactManifold> = Vec::new();
    let mut c: usize = 0;
    let mut i: usize = 0;
    while i < new_ids.len()
        invariant
            i <= new_ids@.len(),
            c <= old_ids@.len(),
            strictly_increasing(new_ids@),
            sorted(old_ids@),
            old_ids@.len() == olds.len(),
            rest@.len() == olds.len() - c,
            forall|a: int| 0 <= a < rest@.len() ==> rest@[a] == olds[olds.len() - 1 - a],
            forall|j: int, a: int|
                0 <= j < c && i <= a < new_ids@.len() ==> old_ids@[j] < new_ids@[a],
            out@.len() <= i,
            forall|a: int| 0 <= a < out@.len() ==> new_ids@[a] < num_triangles,
            forall|a: int| out@.len() <= a < i ==> new_ids@[a] >= num_triangles,
            forall|a: int|
                0 <= a < out@.len() ==> manifold_owed(
                    #[trigger] out@[a],
                    new_ids@[a],
                    old_ids@,
                    olds,
                    pair,
                    flipped,
                ),
        decreases new_ids@.len() - i,
    {
        let t: usize = new_ids[i];
        if t < num_triangles {
            assert(out@.len() == i) by {
                if out@.len() < i {
                    assert(new_ids@[out@.len() as int] >= num_triangles);
                }
            }
            while c < old_ids.len() && old_ids[c] < t
                invariant
                    c <= old_ids@.len(),
                    old_ids@.len() == olds.len(),
                    rest@.len() == olds.len() - c,
                    forall|a: int| 0 <= a < rest@.len() ==> rest@[a] == olds[olds.len() - 1 - a],
                    forall|j: int| 0 <= j < c ==> old_ids@[j] < t,
                decreases old_ids@.len() - c,
            {
                let _ = rest.pop();
                c += 1;
            }
            let ghost at = c as int;
            let m = if c < old_ids.len() && old_ids[c] == t {
                c += 1;
                rest.pop().unwrap()
            } else if flipped {
                ContactManifold::with_subshape_indices(pair, t, 0)
            } else {
                ContactManifold::with_subshape_indices(pair, 0, t)
            };
            assert(manifold_owed(m, t, old_ids@, olds, pair, flipped)) by {
                if at < old_ids@.len() && old_ids@[at] == t {
                    assert(m == olds[at]);
                    assert forall|j: int|
                        0 <= j < old_ids@.len() && old_ids@[j] == t && (forall|h: int|
                            0 <= h < j ==> old_ids@[h] != t) implies j == at by {
                        if j > at {
                            assert(old_ids@[at] == t);
                        }
                    }
                } else {
                    assert forall|j: int| 0 <= j < old_ids@.len() implies old_ids@[j] != t by {
                        if j >= at {
                            assert(at < old_ids@.len());
                            assert(old_ids@[at] <= old_ids@[j]);
                        }
                    }
                }
            }
            out.push(m);
        }
        i += 1;
    }
    out
}

/// Lists the generator calls that are due for a list of candidate triangles,
/// passing over the entries at or beyond the mesh's triangle count.
pub fn plan_dispatch(
    ids: &Vec<usize>,
    manifolds: &Vec<ContactManifold>,
    num_triangles: usize,
    mesh_collider: usize,
) -> (r: Vec<PrimitiveDispatch>)
    requires
        forall|i: int| 0 <= i < ids@.len() && ids@[i] < num_triangles ==> i < manifolds@.len(),
    ensures
        r@ == dispatch_plan(ids@, manifolds@, num_triangles, mesh_collider),
{
    let mut r: Vec<PrimitiveDispatch> = Vec::new();
    let mut i: usize = 0;
    while i < ids.len()
        invariant
            i <= ids@.len(),
            forall|i: int| 0 <= i < ids@.len() && ids@[i] < num_triangles ==> i < manifolds@.len(),
            r@ == dispatch_plan(ids@.take(i as int), manifolds@, num_triangles, mesh_collider),
        decreases ids@.len() - i,
    {
        let t: usize = ids[i];
        proof {
            let upto = ids@.take(i + 1);
            assert(upto.drop_last() =~= ids@.take(i as int));
            assert(upto.last() == t);
            assert(dispatch_at(upto, manifolds@, mesh_collider, i as int) == dispatch_at(
                ids@,
                manifolds@,
                mesh_collider,
                i as int,
            ));
        }
        if t < num_triangles {
            let swapped = mesh_collider != manifolds[i].pair.collider1;
            r.push(PrimitiveDispatch { manifold: i, triangle: t, swapped });
        }
        i += 1;
    }
    assert(ids@.take(ids@.len() as int) =~= ids@);
    r
}

/// The box that the mesh's spatial hierarchy has to be queried with in this
/// step, or `None` where the box of the last query still contains the
/// shape's box grown by the prediction distance, so that what that query
/// found stays in use.
pub fn query_box(
    workspace: &TrimeshShapeContactGeneratorWorkspace,
    local_aabb2: &Aabb,
    prediction_distance: i64,
) -> (r: Option<Aabb>)
    requires
        prediction_distance >= 0,
        local_aabb2.loosen_fits(prediction_distance),
        !workspace.local_aabb2.contains_spec(local_aabb2.loosened_spec(prediction_distance))
            ==> local_aabb2.loosened_spec(prediction_distance).pad_fits(),
    ensures
        r == if workspace.local_aabb2.contains_spec(
            local_aabb2.loosened_spec(prediction_distance),
        ) {
            None
        } else {
            Some(local_aabb2.loosened_spec(prediction_distance).padded_spec())
        },
{
    let new_box = local_aabb2.loosened(prediction_distance);
    if workspace.local_aabb2.contains(&new_box) {
        None
    } else {
        Some(new_box.padded())
    }
}

/// What `do_generate_contacts` asks of its arguments: the shape's box can
/// be grown by the prediction distance; where the cached box still contains
/// it, every cached triangle of the mesh has a manifold at its place;
/// where it does not, the grown box can be padded, the triangles found rise
/// strictly, and the previous triangles are sorted and as many as the
/// manifolds.
pub open spec fn ready(
    num_triangles: usize,
    pair: ColliderPair,
    local_aabb2: Aabb,
    prediction_distance: i64,
    workspace: TrimeshShapeContactGeneratorWorkspace,
    manifolds: Seq<ContactManifold>,
    interferences: Seq<usize>,
    flipped: bool,
) -> bool {
    &&& prediction_distance >= 0
    &&& local_aabb2.loosen_fits(prediction_distance)
    &&& if workspace.local_aabb2.contains_spec(local_aabb2.loosened_spec(prediction_distance)) {
        forall|i: int|
            0 <= i < workspace.interferences@.len() && workspace.interferences@[i] < num_triangles
                ==> i < manifolds.len()
    } else {
        let previous = previous_ids(workspace.interferences@, manifolds, pair.collider1, flipped);
        &&& local_aabb2.loosened_spec(prediction_distance).pad_fits()
        &&& strictly_increasing(interferences)
        &&& sorted(previous)
        &&& previous.len() == manifolds.len()
    }
}

/// Updates the manifolds between a mesh of `num_triangles` triangles and
/// another shape, and lists the generator calls that fill them.
///
/// `local_aabb2` is the other shape's box in the mesh's frame, and
/// `interferences` the triangles that the mesh's hierarchy found for the box
/// that `query_box` named; where `query_box` named none, the list is not
/// looked at. `flipped` says that the mesh is the second collider of `pair`.
///
/// Where the cached box no longer contains the shape's box, the manifolds
/// are reconciled with the triangles found, and the workspace keeps the
/// padded box and, of the triangles found, those of the mesh: the entries
/// at or beyond the triangle count are dropped, so that the cached list has
/// one entry for each manifold.
pub fn do_generate_contacts(
    num_triangles: usize,
    pair: ColliderPair,
    local_aabb2: &Aabb,
    prediction_distance: i64,
    workspace: &mut TrimeshShapeContactGeneratorWorkspace,
    manifolds: &mut Vec<ContactManifold>,
    interferences: Vec<usize>,
    flipped: bool,
) -> (calls: Vec<PrimitiveDispatch>)
    requires
        ready(
            num_triangles,
            pair,
            *local_aabb2,
            prediction_distance,
            *old(workspace),
            old(manifolds)@,
            interferences@,
            flipped,
        ),
    ensures
        calls@ == dispatch_plan(
            final(workspace).interferences@,
            final(manifolds)@,
            num_triangles,
            pair.mesh(flipped),
        ),
        old(workspace).local_aabb2.contains_spec(local_aabb2.loosened_spec(prediction_distance))
            ==> *final(workspace) == *old(workspace) && final(manifolds)@ == old(manifolds)@,
        !old(workspace).local_aabb2.contains_spec(local_aabb2.loosened_spec(prediction_distance))
            ==> final(workspace).local_aabb2 == local_aabb2.loosened_spec(
            prediction_distance,
        ).padded_spec() && final(workspace).interferences@ == interferences@.take(
            final(manifolds)@.len() as int,
        ) && reconciled(
            final(manifolds)@,
            interferences@,
            previous_ids(old(workspace).interferences@, old(manifolds)@, pair.collider1, flipped),
            old(manifolds)@,
            num_triangles,
            pair,
            flipped,
        ),
{
    let new_box = local_aabb2.loosened(prediction_distance);
    if !workspace.local_aabb2.contains(&new_box) {
        let padded = new_box.padded();
        let mut old_ids = interferences;
        std::mem::swap(&mut old_ids, &mut workspace.interferences);
        let mut old_manifolds: Vec<ContactManifold> = Vec::new();
        std::mem::swap(&mut old_manifolds, manifolds);
        if old_ids.len() == 0 && old_manifolds.len() > 0 {
            old_ids = subshape_ids(&old_manifolds, pair.collider1, flipped);
        }
        let kept = reconcile_manifolds(
            &workspace.interferences,
            &old_ids,
            old_manifolds,
            num_triangles,
            pair,
            flipped,
        );
        workspace.interferences.truncate(kept.len());
        *manifolds = kept;
        workspace.local_aabb2 = padded;
    }
    plan_dispatch(
        &workspace.interferences,
        manifolds,
        num_triangles,
        pair.mesh_collider(flipped),
    )
}

/// A triangle mesh, as far as contact bookkeeping looks at it.
#[derive(Clone, Copy, Debug, PartialEq, Eq, Structural)]
pub struct Trimesh {
    pub num_triangles: usize,
}

/// The shape of a collider: a triangle mesh, or a single primitive.
#[derive(Clone, Copy, Debug, PartialEq, Eq, Structural)]
pub enum Shape {
    Trimesh(Trimesh),
    Primitive,
}

/// The state that a contact generator keeps for one pair, by the family of
/// the generator.
#[derive(Debug)]
pub enum GeneratorWorkspace {
    TrimeshShape(TrimeshShapeContactGeneratorWorkspace),
    Primitive,
}

/// A pair of colliders that the broad phase found close, with its manifolds.
#[derive(Debug)]
pub struct ContactPair {
    pub pair: ColliderPair,
    pub manifolds: Vec<ContactManifold>,
    pub generator_workspace: Option<GeneratorWorkspace>,
}

/// What one run of the contact generator of a pair works on.
#[derive(Debug)]
pub struct ContactGenerationContext {
    pub prediction_distance: i64,
    /// The shape of the pair's first and of its second collider.
    pub shape1: Shape,
    pub shape2: Shape,
    /// The box of the shape that is not the mesh, in the mesh's frame.
    pub local_aabb2: Aabb,
    pub pair: ContactPair,
}

impl ContactGenerationContext {
    /// The mesh of the pair, the first collider's where both are meshes, and
    /// whether it is the second collider's.
    pub open spec fn mesh(self) -> Option<(Trimesh, bool)> {
        match (self.shape1, self.shape2) {
            (Shape::Trimesh(mesh), _) => Some((mesh, false)),
            (_, Shape::Trimesh(mesh)) => Some((mesh, true)),
            _ => None,
        }
    }

    /// The pair's workspace for a mesh and a shape, where it has one.
    pub open spec fn workspace(self) -> Option<TrimeshShapeContactGeneratorWorkspace> {
        match self.pair.generator_workspace {
            Some(GeneratorWorkspace::TrimeshShape(workspace)) => Some(workspace),
            _ => None,
        }
    }

    /// What `generate_contacts_trimesh_shape` asks of the context and of the
    /// triangles handed to it: where the pair has a mesh, it has the
    /// workspace that goes with a mesh, and both are fit for
    /// `do_generate_contacts`.
    pub open spec fn ready(self, interferences: Seq<usize>) -> bool {
        self.mesh() is Some ==> self.workspace() is Some && ready(
            self.mesh().unwrap().0.num_triangles,
            self.pair.pair,
            self.local_aabb2,
            self.prediction_distance,
            self.workspace().unwrap(),
            self.pair.manifolds@,
            interferences,
            self.mesh().unwrap().1,
        )
    }
}

/// The box that the hierarchy of the pair's mesh has to be queried with
/// before `generate_contacts_trimesh_shape` runs, or `None` where no query is
/// due: the pair has no mesh, or the last query's box still holds.
pub fn trimesh_query_box(ctxt: &ContactGenerationContext) -> (r: Option<Aabb>)
    requires
        ctxt.mesh() is Some ==> {
            &&& ctxt.workspace() is Some
            &&& ctxt.prediction_distance >= 0
            &&& ctxt.local_aabb2.loosen_fits(ctxt.prediction_distance)
            &&& !ctxt.workspace().unwrap().local_aabb2.contains_spec(
                ctxt.local_aabb2.loosened_spec(ctxt.prediction_distance),
            ) ==> ctxt.local_aabb2.loosened_spec(ctxt.prediction_distance).pad_fits()
        },
    ensures
        r == if ctxt.mesh() is Some && !ctxt.workspace().unwrap().local_aabb2.contains_spec(
            ctxt.local_aabb2.loosened_spec(ctxt.prediction_distance),
        ) {
            Some(ctxt.local_aabb2.loosened_spec(ctxt.prediction_distance).padded_spec())
        } else {
            None
        },
{
    let has_mesh = match (&ctxt.shape1, &ctxt.shape2) {
        (Shape::Trimesh(_), _) => true,
        (_, Shape::Trimesh(_)) => true,
        _ => false,
    };
    if !has_mesh {
        return None;
    }
    match &ctxt.pair.generator_workspace {
        Some(GeneratorWorkspace::TrimeshShape(workspace)) => query_box(
            workspace,
            &ctxt.local_aabb2,
            ctxt.prediction_distance,
        ),
        _ => None,
    }
}

/// Runs the mesh against the other shape of the pair: finds which collider
/// is the mesh, updates the pair's manifolds and workspace as
/// `do_generate_contacts` says, and returns the generator calls that are
/// due. A pair without a mesh is left as it is.
pub fn generate_contacts_trimesh_shape(
    ctxt: &mut ContactGenerationContext,
    interferences: Vec<usize>,
) -> (calls: Vec<PrimitiveDispatch>)
    requires
        old(ctxt).ready(interferences@),
    ensures
        final(ctxt).prediction_distance == old(ctxt).prediction_distance,
        final(ctxt).shape1 == old(ctxt).shape1,
        final(ctxt).shape2 == old(ctxt).shape2,
        final(ctxt).local_aabb2 == old(ctxt).local_aabb2,
        final(ctxt).pair.pair == old(ctxt).pair.pair,
        old(ctxt).mesh() is None ==> *final(ctxt) == *old(ctxt) && calls@.len() == 0,
        old(ctxt).mesh() is Some ==> {
            let (mesh, flipped) = old(ctxt).mesh().unwrap();
            let before = old(ctxt).workspace().unwrap();
            let new_box = old(ctxt).local_aabb2.loosened_spec(old(ctxt).prediction_distance);
            let after = final(ctxt).workspace().unwrap();
            let manifolds = final(ctxt).pair.manifolds@;
            let previous = previous_ids(
                before.interferences@,
                old(ctxt).pair.manifolds@,
                old(ctxt).pair.pair.collider1,
                flipped,
            );
            &&& final(ctxt).workspace() is Some
            &&& calls@ == dispatch_plan(
                after.interferences@,
                manifolds,
                mesh.num_triangles,
                old(ctxt).pair.pair.mesh(flipped),
            )
            &&& before.local_aabb2.contains_spec(new_box) ==> after == before && manifolds
                == old(ctxt).pair.manifolds@
            &&& !before.local_aabb2.contains_spec(new_box) ==> after.local_aabb2
                == new_box.padded_spec() && after.interferences@ == interferences@.take(
                manifolds.len() as int,
            ) && reconciled(
                manifolds,
                interferences@,
                previous,
                old(ctxt).pair.manifolds@,
                mesh.num_triangles,
                old(ctxt).pair.pair,
                flipped,
            )
        },
{
    let found: Option<(usize, bool)> = match (&ctxt.shape1, &ctxt.shape2) {
        (Shape::Trimesh(mesh), _) => Some((mesh.num_triangles, false)),
        (_, Shape::Trimesh(mesh)) => Some((mesh.num_triangles, true)),
        _ => None,
    };
    match found {
        None => Vec::new(),
        Some((num_triangles, flipped)) => {
            let pair = ctxt.pair.pair;
            let local_aabb2 = ctxt.local_aabb2;
            let prediction_distance = ctxt.prediction_distance;
            match ctxt.pair.generator_workspace.take() {
                Some(GeneratorWorkspace::TrimeshShape(workspace)) => {
                    let mut workspace = workspace;
                    let calls = do_generate_contacts(
                        num_triangles,
                        pair,
                        &local_aabb2,
                        prediction_distance,
                        &mut workspace,
                        &mut ctxt.pair.manifolds,
                        interferences,
                        flipped,
                    );
                    ctxt.pair.generator_workspace = Some(
                        GeneratorWorkspace::TrimeshShape(workspace),
                    );
                    calls
                },
                _ => {
                    assert(false);
                    Vec::new()
                },
            }
        },
    }
}

/// An entry at or beyond the mesh's triangle count gets no generator call:
/// every call that is due names a triangle of the mesh, the place of that
/// triangle in the list, and the manifold at the same place; the calls come
/// in the order of the list, and there are no more of them than entries.
pub proof fn lemma_dispatch_plan_names_triangles(
    ids: Seq<usize>,
    manifolds: Seq<ContactManifold>,
    num_triangles: usize,
    mesh_collider: usize,
)
    requires
        ids.len() <= usize::MAX,
    ensures
        ({
            let plan = dispatch_plan(ids, manifolds, num_triangles, mesh_collider);
            &&& plan.len() <= ids.len()
            &&& forall|k: int|
                0 <= k < plan.len() ==> {
                    let call = #[trigger] plan[k];
                    &&& call.triangle < num_triangles
                    &&& call.manifold < ids.len()
                    &&& ids[call.manifold as int] == call.triangle
                    &&& call.swapped == (mesh_collider != manifolds[call.manifold as int].pair.collider1)
                }
            &&& forall|k: int, h: int|
                0 <= k < h < plan.len() ==> plan[k].manifold < plan[h].manifold
        }),
    decreases ids.len(),
{
    if ids.len() > 0 {
        lemma_dispatch_plan_names_triangles(ids.drop_last(), manifolds, num_triangles, mesh_collider);
        let before = dispatch_plan(ids.drop_last(), manifolds, num_triangles, mesh_collider);
        let plan = dispatch_plan(ids, manifolds, num_triangles, mesh_collider);
        assert forall|k: int| 0 <= k < before.len() implies ids[(#[trigger] before[k]).manifold as int]
            == before[k].triangle by {
            assert(ids.drop_last()[before[k].manifold as int] == ids[before[k].manifold as int]);
        }
    }
}

/// Where every entry that names a triangle of the mesh stands before every
/// entry that does not, as in a sorted list, the calls that are due are for
/// the entries at the front, one after the other.
pub proof fn lemma_dispatch_plan_of_sorted(
    ids: Seq<usize>,
    manifolds: Seq<ContactManifold>,
    num_triangles: usize,
    mesh_collider: usize,
    count: int,
)
    requires
        0 <= count <= ids.len(),
        forall|i: int| 0 <= i < count ==> ids[i] < num_triangles,
        forall|i: int| count <= i < ids.len() ==> ids[i] >= num_triangles,
    ensures
        dispatch_plan(ids, manifolds, num_triangles, mesh_collider) == Seq::new(
            count as nat,
            |i: int| dispatch_at(ids, manifolds, mesh_collider, i),
        ),
    decreases ids.len(),
{
    let plan = dispatch_plan(ids, manifolds, num_triangles, mesh_collider);
    let wanted = Seq::new(count as nat, |i: int| dispatch_at(ids, manifolds, mesh_collider, i));
    if ids.len() == 0 {
        assert(plan =~= wanted);
    } else {
        let front = ids.drop_last();
        let shorter = if count == ids.len() {
            count - 1
        } else {
            count
        };
        lemma_dispatch_plan_of_sorted(front, manifolds, num_triangles, mesh_collider, shorter);
        assert forall|i: int| 0 <= i < shorter implies dispatch_at(front, manifolds, mesh_collider, i)
            == dispatch_at(ids, manifolds, mesh_collider, i) by {
            assert(front[i] == ids[i]);
        }
        assert(plan =~= wanted);
    }
}

/// In a list that rises strictly, no entry is below its own place.
pub proof fn lemma_rising_entries_reach_their_place(s: Seq<usize>, i: int)
    requires
        strictly_increasing(s),
        0 <= i < s.len(),
    ensures
        s[i] >= i,
    decreases i,
{
    if i > 0 {
        lemma_rising_entries_reach_their_place(s, i - 1);
    }
}

/// Where a triangle stands in a list, it stands somewhere first.
pub proof fn lemma_first_place(s: Seq<usize>, t: usize, j: int) -> (first: int)
    requires
        0 <= j < s.len(),
        s[j] == t,
    ensures
        0 <= first <= j,
        s[first] == t,
        forall|h: int| 0 <= h < first ==> s[h] != t,
    decreases j,
{
    if exists|h: int| 0 <= h < j && s[h] == t {
        let h = choose|h: int| 0 <= h < j && s[h] == t;
        lemma_first_place(s, t, h)
    } else {
        j
    }
}

/// Reconciling keeps list and manifolds in step: where each old manifold
/// records the triangle at its place in the old list, each manifold that is
/// left records the triangle at its place in the new list, so that the
/// manifolds stand in the rising order of their triangles, no two for one
/// triangle, and the new list cut down to the triangles of the mesh has one
/// entry for each manifold.
pub proof fn lemma_reconciled_records_triangles(
    manifolds: Seq<ContactManifold>,
    new_ids: Seq<usize>,
    old_ids: Seq<usize>,
    old_manifolds: Seq<ContactManifold>,
    num_triangles: usize,
    pair: ColliderPair,
    flipped: bool,
)
    requires
        strictly_increasing(new_ids),
        reconciled(manifolds, new_ids, old_ids, old_manifolds, num_triangles, pair, flipped),
        old_ids == recorded_ids(old_manifolds, pair.collider1, flipped),
    ensures
        new_ids.take(manifolds.len() as int) == recorded_ids(manifolds, pair.collider1, flipped),
        strictly_increasing(recorded_ids(manifolds, pair.collider1, flipped)),
{
    let cut = new_ids.take(manifolds.len() as int);
    let recorded = recorded_ids(manifolds, pair.collider1, flipped);
    assert forall|i: int| 0 <= i < manifolds.len() implies cut[i] == recorded[i] by {
        let m = manifolds[i];
        let t = new_ids[i];
        assert(manifold_owed(m, t, old_ids, old_manifolds, pair, flipped));
        if exists|j: int| 0 <= j < old_ids.len() && old_ids[j] == t {
            let j = choose|j: int| 0 <= j < old_ids.len() && old_ids[j] == t;
            let first = lemma_first_place(old_ids, t, j);
            assert(m == old_manifolds[first]);
            assert(old_ids[first] == old_manifolds[first].recorded_triangle(pair.collider1, flipped));
        }
    }
    assert(cut =~= recorded);
}

/// What a step leaves is fit for the next step: the triangles that the
/// workspace keeps rise strictly and are as many as the manifolds, so they
/// can be used again as they are, or be reconciled against the next query.
pub proof fn lemma_reconciled_is_ready(
    manifolds: Seq<ContactManifold>,
    new_ids: Seq<usize>,
    old_ids: Seq<usize>,
    old_manifolds: Seq<ContactManifold>,
    num_triangles: usize,
    pair: ColliderPair,
    flipped: bool,
)
    requires
        strictly_increasing(new_ids),
        reconciled(manifolds, new_ids, old_ids, old_manifolds, num_triangles, pair, flipped),
    ensures
        ({
            let kept = new_ids.take(manifolds.len() as int);
            &&& kept.len() == manifolds.len()
            &&& strictly_increasing(kept)
            &&& sorted(kept)
            &&& forall|i: int| 0 <= i < kept.len() ==> kept[i] < num_triangles
            &&& manifolds.len() <= num_triangles
            &&& previous_ids(kept, manifolds, pair.collider1, flipped) == kept
        }),
{
    if manifolds.len() > 0 {
        lemma_rising_entries_reach_their_place(new_ids, manifolds.len() - 1);
    }
}

} // verus!
