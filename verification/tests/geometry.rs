use wiremesh::error::ConfigError;
use wiremesh::indices::{build_indices, MAX_VERTICES};
use wiremesh::mesh::MeshSize;
use wiremesh::layout::{generate, vertex_total, Corner, Edge, NormalSign, VertexSlot};

#[test]
fn one_triangle_four_steps() {
    let slots = generate(1, 4).unwrap();
    assert_eq!(slots.len(), 12);
    let (lines, triangles) = build_indices(1, 4).unwrap();
    assert_eq!(triangles, vec![0, 4, 8]);
    assert_eq!(lines.len(), 24);
    assert_eq!(
        lines,
        vec![0, 1, 1, 2, 2, 3, 3, 4, 4, 5, 5, 6, 6, 7, 7, 8, 8, 9, 9, 10, 10, 11, 11, 0]
    );
}

#[test]
fn no_triangles_give_empty_lists() {
    assert_eq!(generate(0, 4).unwrap(), Vec::new());
    let (lines, triangles) = build_indices(0, 4).unwrap();
    assert!(lines.is_empty());
    assert!(triangles.is_empty());
    let size = MeshSize::new(0, 7).unwrap();
    assert_eq!(size.vertices(), 0);
    assert!(size.layout().is_empty());
    assert!(size.indices().0.is_empty());
    assert!(size.indices().1.is_empty());
}

#[test]
fn zero_steps_are_refused() {
    assert_eq!(generate(3, 0), Err(ConfigError::ZeroSubdivisions));
    assert_eq!(generate(0, 0), Err(ConfigError::ZeroSubdivisions));
    assert_eq!(build_indices(3, 0), Err(ConfigError::ZeroSubdivisions));
    assert_eq!(MeshSize::new(3, 0), Err(ConfigError::ZeroSubdivisions));
    assert_eq!(MeshSize::new(usize::MAX, 0), Err(ConfigError::ZeroSubdivisions));
}

#[test]
fn too_many_vertices_are_refused() {
    assert_eq!(MeshSize::new(21846, 1), Err(ConfigError::TooManyVertices));
    assert_eq!(MeshSize::new(1, 21846), Err(ConfigError::TooManyVertices));
    assert_eq!(MeshSize::new(usize::MAX, 1), Err(ConfigError::TooManyVertices));
    assert_eq!(MeshSize::new(usize::MAX, usize::MAX), Err(ConfigError::TooManyVertices));
    assert!(MeshSize::new(21845, 1).is_ok());
    assert_eq!(MeshSize::new(21845, 1).unwrap().vertices(), 65535);
    assert_eq!(MAX_VERTICES, 65536);
}

#[test]
fn largest_mesh_uses_every_index_once_per_corner() {
    let size = MeshSize::new(2, 10922).unwrap();
    assert_eq!(size.vertices(), 65532);
    let (lines, triangles) = size.indices();
    assert_eq!(lines.len(), 2 * 6 * 10922);
    assert_eq!(triangles, vec![0, 10922, 21844, 32766, 43688, 54610]);
    assert_eq!(*lines.iter().max().unwrap(), 65531);
}

#[test]
fn vertex_total_is_exact_or_none() {
    assert_eq!(vertex_total(4, 32), Some(384));
    assert_eq!(vertex_total(0, 9), Some(0));
    assert_eq!(vertex_total(9, 0), Some(0));
    assert_eq!(vertex_total(usize::MAX, 0), Some(0));
    assert_eq!(vertex_total(usize::MAX, 1), None);
    assert_eq!(vertex_total(usize::MAX / 3, 1), Some(usize::MAX / 3 * 3));
    assert_eq!(vertex_total(usize::MAX / 3, 2), None);
}

#[test]
fn vertex_count_is_three_steps_per_triangle() {
    for n in 0..6usize {
        for s in 1..9usize {
            assert_eq!(generate(n, s).unwrap().len(), n * 3 * s);
            assert_eq!(MeshSize::new(n, s).unwrap().vertices(), n * 3 * s);
        }
    }
    assert_eq!(generate(4, 32).unwrap().len(), 384);
}

#[test]
fn slots_come_triangle_by_triangle_edge_by_edge() {
    let slots = generate(2, 2).unwrap();
    let expect = |triangle, edge, step, normal| VertexSlot { triangle, edge, step, normal };
    assert_eq!(
        slots,
        vec![
            expect(0, Edge::AB, 0, NormalSign::Zero),
            expect(0, Edge::AB, 1, NormalSign::Minus),
            expect(0, Edge::BC, 0, NormalSign::Zero),
            expect(0, Edge::BC, 1, NormalSign::Minus),
            expect(0, Edge::CA, 0, NormalSign::Zero),
            expect(0, Edge::CA, 1, NormalSign::Minus),
            expect(1, Edge::AB, 0, NormalSign::Zero),
            expect(1, Edge::AB, 1, NormalSign::Minus),
            expect(1, Edge::BC, 0, NormalSign::Zero),
            expect(1, Edge::BC, 1, NormalSign::Minus),
            expect(1, Edge::CA, 0, NormalSign::Zero),
            expect(1, Edge::CA, 1, NormalSign::Minus),
        ]
    );
}

#[test]
fn one_step_per_edge_gives_the_corners() {
    let slots = generate(1, 1).unwrap();
    assert_eq!(slots.len(), 3);
    assert_eq!(slots[0].edge.start(), Corner::A);
    assert_eq!(slots[1].edge.start(), Corner::B);
    assert_eq!(slots[2].edge.start(), Corner::C);
    assert!(slots.iter().all(|slot| slot.step == 0 && slot.normal == NormalSign::Zero));
    let (lines, triangles) = build_indices(1, 1).unwrap();
    assert_eq!(lines, vec![0, 1, 1, 2, 2, 0]);
    assert_eq!(triangles, vec![0, 1, 2]);
}

#[test]
fn normals_alternate_after_the_corner() {
    let slots = generate(1, 4).unwrap();
    let edge: Vec<NormalSign> = slots[0..4].iter().map(|slot| slot.normal).collect();
    assert_eq!(
        edge,
        vec![NormalSign::Zero, NormalSign::Minus, NormalSign::Plus, NormalSign::Minus]
    );
    let longer = generate(1, 5).unwrap();
    let after_corner: Vec<NormalSign> = longer[1..5].iter().map(|slot| slot.normal).collect();
    assert_eq!(
        after_corner,
        vec![NormalSign::Minus, NormalSign::Plus, NormalSign::Minus, NormalSign::Plus]
    );
    for (k, slot) in longer.iter().enumerate() {
        assert_eq!(slot.step, k % 5);
        let expected = if slot.step == 0 {
            NormalSign::Zero
        } else if slot.step % 2 == 1 {
            NormalSign::Minus
        } else {
            NormalSign::Plus
        };
        assert_eq!(slot.normal, expected);
    }
}

#[test]
fn edges_run_round_the_triangle() {
    assert_eq!((Edge::AB.start(), Edge::AB.end()), (Corner::A, Corner::B));
    assert_eq!((Edge::BC.start(), Edge::BC.end()), (Corner::B, Corner::C));
    assert_eq!((Edge::CA.start(), Edge::CA.end()), (Corner::C, Corner::A));
}

#[test]
fn indices_stay_inside_the_vertex_list() {
    for n in 0..5usize {
        for s in 1..7usize {
            let count = n * 3 * s;
            let (lines, triangles) = build_indices(n, s).unwrap();
            assert!(lines.iter().all(|&i| (i as usize) < count));
            assert!(triangles.iter().all(|&i| (i as usize) < count));
        }
    }
}

#[test]
fn line_list_holds_every_vertex_twice() {
    for n in 0..5usize {
        for s in 1..7usize {
            let (lines, _) = build_indices(n, s).unwrap();
            assert_eq!(lines.len(), n * (2 + 2 * (3 * s - 1)));
            for v in 0..(n * 3 * s) {
                let times = lines.iter().filter(|&&i| i as usize == v).count();
                assert_eq!(times, 2);
            }
        }
    }
}

#[test]
fn line_list_closes_a_ring_round_each_triangle() {
    let (lines, _) = build_indices(3, 2).unwrap();
    assert_eq!(lines.len(), 36);
    for t in 0..3usize {
        for k in 0..6usize {
            let from = lines[t * 12 + 2 * k] as usize;
            let to = lines[t * 12 + 2 * k + 1] as usize;
            assert_eq!(from, t * 6 + k);
            assert_eq!(to, t * 6 + (k + 1) % 6);
        }
    }
}

#[test]
fn triangle_list_names_the_corners() {
    let (_, triangles) = build_indices(2, 3).unwrap();
    assert_eq!(triangles, vec![0, 3, 6, 9, 12, 15]);
    let slots = generate(2, 3).unwrap();
    for (p, &index) in triangles.iter().enumerate() {
        let slot = slots[index as usize];
        assert_eq!(slot.triangle, p / 3);
        assert_eq!(slot.step, 0);
        assert_eq!(slot.normal, NormalSign::Zero);
        assert_eq!(slot.edge, [Edge::AB, Edge::BC, Edge::CA][p % 3]);
    }
}

#[test]
fn mesh_size_builds_what_the_free_functions_build() {
    let size = MeshSize::new(4, 32).unwrap();
    assert_eq!(size.num_triangles(), 4);
    assert_eq!(size.subdivisions(), 32);
    assert_eq!(size.vertices(), 384);
    assert_eq!(size.layout(), generate(4, 32).unwrap());
    assert_eq!(size.indices(), build_indices(4, 32).unwrap());
    assert_eq!(size.indices().0.len(), 768);
    assert_eq!(size.indices().1.len(), 12);
}
