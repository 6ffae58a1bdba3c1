use physics_core::aabb::Aabb;
use physics_core::contact::ColliderPair;
use physics_core::contact::Contact;
use physics_core::contact::ContactManifold;
use physics_core::contact::PrimitiveDispatch;
use physics_core::math::Vector2;
use physics_core::trimesh::do_generate_contacts;
use physics_core::trimesh::generate_contacts_trimesh_shape;
use physics_core::trimesh::plan_dispatch;
use physics_core::trimesh::query_box;
use physics_core::trimesh::reconcile_manifolds;
use physics_core::trimesh::subshape_ids;
use physics_core::trimesh::trimesh_query_box;
use physics_core::trimesh::ContactGenerationContext;
use physics_core::trimesh::ContactPair;
use physics_core::trimesh::GeneratorWorkspace;
use physics_core::trimesh::Shape;
use physics_core::trimesh::Trimesh;
use physics_core::trimesh::TrimeshShapeContactGeneratorWorkspace;

const ONE: i64 = 65536;

fn pair() -> ColliderPair {
    ColliderPair { collider1: 3, collider2: 7 }
}

fn unit_box_at(x: i64, y: i64) -> Aabb {
    Aabb {
        mins: Vector2 { x: x * ONE, y: y * ONE },
        maxs: Vector2 { x: (x + 1) * ONE, y: (y + 1) * ONE },
    }
}

fn marked(triangle: usize, impulse: i64) -> ContactManifold {
    let mut m = ContactManifold::with_subshape_indices(pair(), 0, triangle);
    m.points.push(Contact {
        local_p1: Vector2 { x: 1, y: 2 },
        local_p2: Vector2 { x: 3, y: 4 },
        dist: -5,
        impulse,
    });
    m
}

fn impulses(m: &ContactManifold) -> Vec<i64> {
    m.points.iter().map(|p| p.impulse).collect()
}

#[test]
fn a_new_workspace_holds_nothing() {
    let w = TrimeshShapeContactGeneratorWorkspace::new();
    assert!(w.interferences.is_empty());
    assert_eq!(w.local_aabb2.mins, Vector2 { x: i64::MAX, y: i64::MAX });
    assert_eq!(w.local_aabb2.maxs, Vector2 { x: -i64::MAX, y: -i64::MAX });
    assert!(!w.local_aabb2.contains(&unit_box_at(0, 0)));
}

#[test]
fn a_fresh_manifold_is_empty_and_tagged() {
    let m = ContactManifold::with_subshape_indices(pair(), 4, 9);
    assert_eq!(m.pair, pair());
    assert_eq!(m.subshape_index_pair, (4, 9));
    assert!(m.points.is_empty());
}

#[test]
fn reconciling_retires_reuses_and_creates() {
    let old_ids = vec![2, 5, 9];
    let old = vec![marked(2, 100), marked(5, 200), marked(9, 300)];
    let new_ids = vec![5, 9, 12];
    let now = reconcile_manifolds(&new_ids, &old_ids, old, 20, pair(), false);
    assert_eq!(now.len(), 3);
    assert_eq!(now[0].subshape_index_pair, (0, 5));
    assert_eq!(impulses(&now[0]), vec![200]);
    assert_eq!(now[1].subshape_index_pair, (0, 9));
    assert_eq!(impulses(&now[1]), vec![300]);
    assert_eq!(now[2].subshape_index_pair, (0, 12));
    assert_eq!(now[2].pair, pair());
    assert!(now[2].points.is_empty());
}

#[test]
fn reconciling_against_nothing_creates_everything() {
    let now = reconcile_manifolds(&vec![1, 4], &vec![], vec![], 10, pair(), true);
    assert_eq!(now.len(), 2);
    assert_eq!(now[0].subshape_index_pair, (1, 0));
    assert_eq!(now[1].subshape_index_pair, (4, 0));
    let none = reconcile_manifolds(&vec![], &vec![1], vec![marked(1, 5)], 10, pair(), true);
    assert!(none.is_empty());
}

#[test]
fn reconciling_keeps_the_first_of_equal_old_entries() {
    let old_ids = vec![0, 0, 0];
    let old = vec![marked(0, 1), marked(0, 2), marked(0, 3)];
    let now = reconcile_manifolds(&vec![0, 1], &old_ids, old, 10, pair(), false);
    assert_eq!(now.len(), 2);
    assert_eq!(impulses(&now[0]), vec![1]);
    assert!(now[1].points.is_empty());
    assert_eq!(now[1].subshape_index_pair, (0, 1));
}

#[test]
fn reconciling_passes_over_padding_indices() {
    let old_ids = vec![3];
    let old = vec![marked(3, 77)];
    let now = reconcile_manifolds(&vec![3, 7, 20, 25], &old_ids, old, 20, pair(), false);
    assert_eq!(now.len(), 2);
    assert_eq!(impulses(&now[0]), vec![77]);
    assert_eq!(now[1].subshape_index_pair, (0, 7));
}

#[test]
fn dispatch_skips_padding_and_marks_swapped_manifolds() {
    let mut other_way = ContactManifold::with_subshape_indices(
        ColliderPair { collider1: 7, collider2: 3 },
        0,
        4,
    );
    other_way.points.clear();
    let manifolds = vec![marked(1, 0), other_way];
    let calls = plan_dispatch(&vec![1, 4, 10, 11], &manifolds, 10, 3);
    assert_eq!(
        calls,
        vec![
            PrimitiveDispatch { manifold: 0, triangle: 1, swapped: false },
            PrimitiveDispatch { manifold: 1, triangle: 4, swapped: true },
        ]
    );
    let calls = plan_dispatch(&vec![10, 1], &manifolds, 10, 3);
    assert_eq!(calls, vec![PrimitiveDispatch { manifold: 1, triangle: 1, swapped: true }]);
    // Seen from a mesh that is collider 7, it is the other way round.
    let calls = plan_dispatch(&vec![1, 4], &manifolds, 10, 7);
    assert_eq!(
        calls,
        vec![
            PrimitiveDispatch { manifold: 0, triangle: 1, swapped: true },
            PrimitiveDispatch { manifold: 1, triangle: 4, swapped: false },
        ]
    );
}

#[test]
fn recorded_ids_follow_the_order_of_the_pair() {
    let a = ContactManifold::with_subshape_indices(pair(), 11, 22);
    let b = ContactManifold::with_subshape_indices(ColliderPair { collider1: 7, collider2: 3 }, 33, 44);
    let both = vec![a, b];
    // The mesh is the first collider: a manifold in the pair's order holds
    // the triangle in the second place.
    assert_eq!(subshape_ids(&both, 3, false), vec![22, 33]);
    // The mesh is the second collider.
    assert_eq!(subshape_ids(&both, 3, true), vec![11, 44]);
    assert_eq!(subshape_ids(&vec![], 3, false), Vec::<usize>::new());
}

#[test]
fn the_query_box_is_loosened_then_padded() {
    let w = TrimeshShapeContactGeneratorWorkspace::new();
    let b = Aabb {
        mins: Vector2 { x: 0, y: 0 },
        maxs: Vector2 { x: 2 * ONE, y: ONE / 2 },
    };
    // Loosened by 1/4: (-1/4, -1/4) .. (9/4, 3/4). Extents 5/2 and 1: margins
    // capped at 6553 on x, and a tenth, 6553, on y.
    let q = query_box(&w, &b, ONE / 4).unwrap();
    assert_eq!(
        q,
        Aabb {
            mins: Vector2 { x: -16384 - 6553, y: -16384 - 6553 },
            maxs: Vector2 { x: 147456 + 6553, y: 49152 + 6553 },
        }
    );
    let small = Aabb { mins: Vector2 { x: 0, y: 0 }, maxs: Vector2 { x: 1000, y: 99 } };
    let q = query_box(&w, &small, 0).unwrap();
    assert_eq!(
        q,
        Aabb { mins: Vector2 { x: -100, y: -9 }, maxs: Vector2 { x: 1100, y: 108 } }
    );
}

#[test]
fn a_contained_box_asks_for_no_query_and_changes_nothing() {
    let mut w = TrimeshShapeContactGeneratorWorkspace::new();
    let mut manifolds: Vec<ContactManifold> = Vec::new();
    let first = unit_box_at(0, 0);
    let asked = query_box(&w, &first, 0).unwrap();
    let calls = do_generate_contacts(20, pair(), &first, 0, &mut w, &mut manifolds, vec![2, 5], false);
    assert_eq!(calls.len(), 2);
    assert_eq!(w.local_aabb2, asked);
    manifolds[0].points.push(Contact {
        local_p1: Vector2 { x: 0, y: 0 },
        local_p2: Vector2 { x: 0, y: 0 },
        dist: 0,
        impulse: 42,
    });

    // Moved by less than the padding: the cached box still contains it.
    let moved = Aabb {
        mins: Vector2 { x: 100, y: -100 },
        maxs: Vector2 { x: ONE + 100, y: ONE - 100 },
    };
    assert_eq!(query_box(&w, &moved, 0), None);
    let calls = do_generate_contacts(20, pair(), &moved, 0, &mut w, &mut manifolds, vec![17, 18], false);
    assert_eq!(w.interferences, vec![2, 5]);
    assert_eq!(w.local_aabb2, asked);
    assert_eq!(manifolds.len(), 2);
    assert_eq!(manifolds[0].subshape_index_pair, (0, 2));
    assert_eq!(impulses(&manifolds[0]), vec![42]);
    assert_eq!(manifolds[1].subshape_index_pair, (0, 5));
    assert_eq!(
        calls,
        vec![
            PrimitiveDispatch { manifold: 0, triangle: 2, swapped: false },
            PrimitiveDispatch { manifold: 1, triangle: 5, swapped: false },
        ]
    );
}

#[test]
fn a_box_that_left_the_cached_one_is_queried_and_reconciled() {
    let mut w = TrimeshShapeContactGeneratorWorkspace::new();
    let mut manifolds: Vec<ContactManifold> = Vec::new();
    do_generate_contacts(20, pair(), &unit_box_at(0, 0), 0, &mut w, &mut manifolds, vec![2, 5, 9], false);
    assert_eq!(manifolds.len(), 3);
    for (k, m) in manifolds.iter_mut().enumerate() {
        m.points.push(Contact {
            local_p1: Vector2 { x: 0, y: 0 },
            local_p2: Vector2 { x: 0, y: 0 },
            dist: 0,
            impulse: 100 * (k as i64 + 1),
        });
    }

    let far = unit_box_at(5, 5);
    let asked = query_box(&w, &far, ONE).unwrap();
    let calls = do_generate_contacts(20, pair(), &far, ONE, &mut w, &mut manifolds, vec![5, 9, 12], false);
    assert_eq!(w.interferences, vec![5, 9, 12]);
    assert_eq!(w.local_aabb2, asked);
    assert_eq!(manifolds.len(), 3);
    assert_eq!(manifolds[0].subshape_index_pair, (0, 5));
    assert_eq!(impulses(&manifolds[0]), vec![200]);
    assert_eq!(manifolds[1].subshape_index_pair, (0, 9));
    assert_eq!(impulses(&manifolds[1]), vec![300]);
    assert_eq!(manifolds[2].subshape_index_pair, (0, 12));
    assert!(manifolds[2].points.is_empty());
    assert_eq!(
        calls,
        vec![
            PrimitiveDispatch { manifold: 0, triangle: 5, swapped: false },
            PrimitiveDispatch { manifold: 1, triangle: 9, swapped: false },
            PrimitiveDispatch { manifold: 2, triangle: 12, swapped: false },
        ]
    );
}

#[test]
fn padding_indices_produce_no_manifold() {
    let mut w = TrimeshShapeContactGeneratorWorkspace::new();
    let mut manifolds: Vec<ContactManifold> = Vec::new();
    let calls = do_generate_contacts(
        8,
        pair(),
        &unit_box_at(0, 0),
        0,
        &mut w,
        &mut manifolds,
        vec![6, 7, 8, 9, 10, 11],
        false,
    );
    assert_eq!(w.interferences, vec![6, 7]);
    assert_eq!(manifolds.len(), 2);
    assert_eq!(manifolds[0].subshape_index_pair, (0, 6));
    assert_eq!(manifolds[1].subshape_index_pair, (0, 7));
    assert_eq!(
        calls,
        vec![
            PrimitiveDispatch { manifold: 0, triangle: 6, swapped: false },
            PrimitiveDispatch { manifold: 1, triangle: 7, swapped: false },
        ]
    );

    let mut w = TrimeshShapeContactGeneratorWorkspace::new();
    let mut manifolds: Vec<ContactManifold> = Vec::new();
    let calls = do_generate_contacts(8, pair(), &unit_box_at(0, 0), 0, &mut w, &mut manifolds, vec![8], false);
    assert!(manifolds.is_empty());
    assert!(calls.is_empty());
    assert!(w.interferences.is_empty());
}

#[test]
fn padding_does_not_stand_in_the_way_of_the_next_query() {
    let mut w = TrimeshShapeContactGeneratorWorkspace::new();
    let mut manifolds: Vec<ContactManifold> = Vec::new();
    do_generate_contacts(100, pair(), &unit_box_at(0, 0), 0, &mut w, &mut manifolds, vec![5, 9, 100], false);
    assert_eq!(w.interferences, vec![5, 9]);
    assert_eq!(manifolds.len(), 2);
    for (k, m) in manifolds.iter_mut().enumerate() {
        m.points.push(Contact {
            local_p1: Vector2 { x: 0, y: 0 },
            local_p2: Vector2 { x: 0, y: 0 },
            dist: 0,
            impulse: 7 + k as i64,
        });
    }
    let calls = do_generate_contacts(100, pair(), &unit_box_at(9, 9), 0, &mut w, &mut manifolds, vec![5, 9], false);
    assert_eq!(w.interferences, vec![5, 9]);
    assert_eq!(manifolds.len(), 2);
    assert_eq!(impulses(&manifolds[0]), vec![7]);
    assert_eq!(impulses(&manifolds[1]), vec![8]);
    assert_eq!(calls.len(), 2);
}

#[test]
fn list_and_manifolds_stay_in_step() {
    let mut w = TrimeshShapeContactGeneratorWorkspace::new();
    let mut manifolds: Vec<ContactManifold> = Vec::new();
    let queries: [Vec<usize>; 4] = [vec![1, 4, 30], vec![0, 4, 7, 29, 31, 32], vec![], vec![29]];
    for (step, found) in queries.into_iter().enumerate() {
        let far = unit_box_at(10 * step as i64, 0);
        do_generate_contacts(30, pair(), &far, 0, &mut w, &mut manifolds, found.clone(), false);
        assert_eq!(w.interferences.len(), manifolds.len());
        assert_eq!(subshape_ids(&manifolds, pair().collider1, false), w.interferences);
        assert!(w.interferences.iter().all(|t| *t < 30));
        assert!(w.interferences.windows(2).all(|p| p[0] < p[1]));
    }
    assert_eq!(w.interferences, vec![29]);
}

#[test]
fn a_lost_workspace_is_rebuilt_from_the_manifolds() {
    // The mesh is the pair's second collider: the manifolds record the
    // triangle in the first place.
    let mut a = ContactManifold::with_subshape_indices(pair(), 4, 0);
    let mut b = ContactManifold::with_subshape_indices(pair(), 8, 0);
    for (m, impulse) in [(&mut a, 11), (&mut b, 22)] {
        m.points.push(Contact {
            local_p1: Vector2 { x: 0, y: 0 },
            local_p2: Vector2 { x: 0, y: 0 },
            dist: 0,
            impulse,
        });
    }
    let mut manifolds = vec![a, b];
    let mut w = TrimeshShapeContactGeneratorWorkspace::new();
    let calls = do_generate_contacts(
        10,
        pair(),
        &unit_box_at(0, 0),
        0,
        &mut w,
        &mut manifolds,
        vec![4, 8, 9],
        true,
    );
    assert_eq!(manifolds.len(), 3);
    assert_eq!(impulses(&manifolds[0]), vec![11]);
    assert_eq!(impulses(&manifolds[1]), vec![22]);
    assert_eq!(manifolds[2].subshape_index_pair, (9, 0));
    assert!(manifolds[2].points.is_empty());
    assert_eq!(w.interferences, vec![4, 8, 9]);
    // The manifolds list the other shape first.
    assert_eq!(
        calls,
        vec![
            PrimitiveDispatch { manifold: 0, triangle: 4, swapped: true },
            PrimitiveDispatch { manifold: 1, triangle: 8, swapped: true },
            PrimitiveDispatch { manifold: 2, triangle: 9, swapped: true },
        ]
    );
}

#[test]
fn a_lost_workspace_is_rebuilt_where_the_mesh_comes_first() {
    // The manifolds are as the generator makes them for a mesh that is the
    // pair's first collider.
    let mut manifolds = vec![marked(4, 11), marked(8, 22)];
    let mut w = TrimeshShapeContactGeneratorWorkspace::new();
    let calls = do_generate_contacts(
        10,
        pair(),
        &unit_box_at(0, 0),
        0,
        &mut w,
        &mut manifolds,
        vec![4, 5, 8],
        false,
    );
    assert_eq!(manifolds.len(), 3);
    assert_eq!(manifolds[0].subshape_index_pair, (0, 4));
    assert_eq!(impulses(&manifolds[0]), vec![11]);
    assert_eq!(manifolds[1].subshape_index_pair, (0, 5));
    assert!(manifolds[1].points.is_empty());
    assert_eq!(manifolds[2].subshape_index_pair, (0, 8));
    assert_eq!(impulses(&manifolds[2]), vec![22]);
    assert_eq!(
        calls,
        vec![
            PrimitiveDispatch { manifold: 0, triangle: 4, swapped: false },
            PrimitiveDispatch { manifold: 1, triangle: 5, swapped: false },
            PrimitiveDispatch { manifold: 2, triangle: 8, swapped: false },
        ]
    );

    let mut one = vec![marked(4, 33)];
    let mut w = TrimeshShapeContactGeneratorWorkspace::new();
    do_generate_contacts(10, pair(), &unit_box_at(0, 0), 0, &mut w, &mut one, vec![4], false);
    assert_eq!(one.len(), 1);
    assert_eq!(impulses(&one[0]), vec![33]);
}

#[test]
fn a_manifold_in_the_other_order_is_rebuilt_and_swapped_alike() {
    // The pair is (3, 7) with the mesh first; the manifold lists (7, 3) and
    // so holds the triangle in the first place.
    let mut m = ContactManifold::with_subshape_indices(ColliderPair { collider1: 7, collider2: 3 }, 6, 0);
    m.points.push(Contact {
        local_p1: Vector2 { x: 0, y: 0 },
        local_p2: Vector2 { x: 0, y: 0 },
        dist: 0,
        impulse: 5,
    });
    let mut manifolds = vec![m];
    let mut w = TrimeshShapeContactGeneratorWorkspace::new();
    let calls = do_generate_contacts(10, pair(), &unit_box_at(0, 0), 0, &mut w, &mut manifolds, vec![6], false);
    assert_eq!(impulses(&manifolds[0]), vec![5]);
    assert_eq!(calls, vec![PrimitiveDispatch { manifold: 0, triangle: 6, swapped: true }]);
}

fn context(shape1: Shape, shape2: Shape) -> ContactGenerationContext {
    ContactGenerationContext {
        prediction_distance: ONE / 8,
        shape1,
        shape2,
        local_aabb2: unit_box_at(1, 1),
        pair: ContactPair {
            pair: pair(),
            manifolds: Vec::new(),
            generator_workspace: Some(GeneratorWorkspace::TrimeshShape(
                TrimeshShapeContactGeneratorWorkspace::new(),
            )),
        },
    }
}

#[test]
fn the_generator_finds_the_mesh_on_the_first_side() {
    let mut ctxt = context(Shape::Trimesh(Trimesh { num_triangles: 6 }), Shape::Primitive);
    let asked = trimesh_query_box(&ctxt).unwrap();
    assert_eq!(
        asked,
        Aabb {
            mins: Vector2 { x: 57344 - 6553, y: 57344 - 6553 },
            maxs: Vector2 { x: 139264 + 6553, y: 139264 + 6553 },
        }
    );
    let calls = generate_contacts_trimesh_shape(&mut ctxt, vec![0, 5, 6]);
    assert_eq!(ctxt.pair.manifolds.len(), 2);
    assert_eq!(ctxt.pair.manifolds[0].subshape_index_pair, (0, 0));
    assert_eq!(ctxt.pair.manifolds[1].subshape_index_pair, (0, 5));
    assert_eq!(
        calls,
        vec![
            PrimitiveDispatch { manifold: 0, triangle: 0, swapped: false },
            PrimitiveDispatch { manifold: 1, triangle: 5, swapped: false },
        ]
    );
    match &ctxt.pair.generator_workspace {
        Some(GeneratorWorkspace::TrimeshShape(w)) => {
            assert_eq!(w.interferences, vec![0, 5]);
            assert_eq!(w.local_aabb2, asked);
        }
        _ => panic!("the workspace is gone"),
    }
    assert_eq!(trimesh_query_box(&ctxt), None);
}

#[test]
fn the_generator_finds_the_mesh_on_the_second_side() {
    let mut ctxt = context(Shape::Primitive, Shape::Trimesh(Trimesh { num_triangles: 6 }));
    let calls = generate_contacts_trimesh_shape(&mut ctxt, vec![2, 3]);
    // The mesh is collider 7, and the manifolds list collider 3 first.
    assert_eq!(
        calls,
        vec![
            PrimitiveDispatch { manifold: 0, triangle: 2, swapped: true },
            PrimitiveDispatch { manifold: 1, triangle: 3, swapped: true },
        ]
    );
    assert_eq!(ctxt.pair.manifolds[0].subshape_index_pair, (2, 0));
    assert_eq!(ctxt.pair.manifolds[1].subshape_index_pair, (3, 0));
    assert_eq!(ctxt.pair.manifolds[0].pair, pair());
}

#[test]
fn the_generator_takes_the_first_of_two_meshes() {
    let mut ctxt = context(
        Shape::Trimesh(Trimesh { num_triangles: 2 }),
        Shape::Trimesh(Trimesh { num_triangles: 50 }),
    );
    let calls = generate_contacts_trimesh_shape(&mut ctxt, vec![1, 2, 3]);
    assert_eq!(calls.len(), 1);
    assert_eq!(ctxt.pair.manifolds.len(), 1);
    assert_eq!(ctxt.pair.manifolds[0].subshape_index_pair, (0, 1));
}

#[test]
fn the_generator_leaves_a_pair_without_mesh_alone() {
    let mut ctxt = context(Shape::Primitive, Shape::Primitive);
    ctxt.pair.generator_workspace = Some(GeneratorWorkspace::Primitive);
    ctxt.pair.manifolds.push(marked(1, 9));
    assert_eq!(trimesh_query_box(&ctxt), None);
    let calls = generate_contacts_trimesh_shape(&mut ctxt, vec![1, 2, 3]);
    assert!(calls.is_empty());
    assert_eq!(ctxt.pair.manifolds.len(), 1);
    assert_eq!(impulses(&ctxt.pair.manifolds[0]), vec![9]);
    assert!(matches!(ctxt.pair.generator_workspace, Some(GeneratorWorkspace::Primitive)));
}
