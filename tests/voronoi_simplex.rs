use parry_query::{SimplexLocation, VoronoiSimplex};

type Pt = (i32, i32, i32);

const A: Pt = (1, 0, 0);
const B: Pt = (0, 2, 0);
const C: Pt = (0, 0, 3);
const D: Pt = (4, 4, 4);

fn simplex_of(pts: &[Pt]) -> VoronoiSimplex<Pt, f64> {
    let mut s = VoronoiSimplex::new(pts[0], 0.0, 1.0);
    for p in &pts[1..] {
        assert!(s.add_point(*p, false));
    }
    s
}

fn points(s: &VoronoiSimplex<Pt, f64>) -> Vec<Pt> {
    (0..=s.dimension()).map(|i| *s.point(i)).collect()
}

fn prev_points(s: &VoronoiSimplex<Pt, f64>) -> Vec<Pt> {
    (0..=s.prev_dimension()).map(|i| *s.prev_point(i)).collect()
}

#[test]
fn new_simplex_is_one_vertex() {
    let s: VoronoiSimplex<Pt, f64> = VoronoiSimplex::new(A, 0.0, 1.0);
    assert_eq!(s.dimension(), 0);
    assert_eq!(s.prev_dimension(), 0);
    assert_eq!(points(&s), vec![A]);
    assert_eq!(s.proj_coord(0), 0.0);
}

#[test]
fn add_point_grows_and_saves_previous_state() {
    let mut s = simplex_of(&[A]);
    s.project_origin_and_reduce(SimplexLocation::OnSolid);
    assert_eq!(s.proj_coord(0), 1.0);
    assert!(s.add_point(B, false));
    assert_eq!(s.dimension(), 1);
    assert_eq!(points(&s), vec![A, B]);
    assert_eq!(s.prev_dimension(), 0);
    assert_eq!(prev_points(&s), vec![A]);
    assert_eq!(s.prev_proj_coord(0), 1.0);
}

#[test]
fn add_point_rejects_degenerate_point() {
    let mut s = simplex_of(&[A, B]);
    assert!(!s.add_point(C, true));
    assert_eq!(s.dimension(), 1);
    assert_eq!(points(&s), vec![A, B]);
    assert_eq!(s.prev_dimension(), 1);
    assert_eq!(prev_points(&s), vec![A, B]);
}

#[test]
fn reset_leaves_single_point() {
    let mut s = simplex_of(&[A, B, C]);
    s.reset(D);
    assert_eq!(s.dimension(), 0);
    assert_eq!(s.prev_dimension(), 0);
    assert_eq!(points(&s), vec![D]);
}

#[test]
fn segment_reduces_to_second_vertex() {
    let mut s = simplex_of(&[A, B]);
    s.project_origin_and_reduce(SimplexLocation::OnVertex(1));
    assert_eq!(s.dimension(), 0);
    assert_eq!(points(&s), vec![B]);
    assert_eq!(s.proj_coord(0), 1.0);
    assert_eq!(prev_points(&s), vec![A]);
}

#[test]
fn segment_interior_keeps_weights_in_order() {
    let mut s = simplex_of(&[A, B]);
    s.project_origin_and_reduce(SimplexLocation::OnEdge(0, [0.25, 0.75]));
    assert_eq!(s.dimension(), 1);
    assert_eq!(points(&s), vec![A, B]);
    assert_eq!((s.proj_coord(0), s.proj_coord(1)), (0.25, 0.75));
}

#[test]
fn triangle_edge_bc_swaps_weights_with_vertices() {
    let mut s = simplex_of(&[A, B, C]);
    s.project_origin_and_reduce(SimplexLocation::OnEdge(1, [0.25, 0.75]));
    assert_eq!(points(&s), vec![C, B]);
    assert_eq!((s.proj_coord(0), s.proj_coord(1)), (0.75, 0.25));
    assert_eq!(prev_points(&s), vec![A, B]);
}

#[test]
fn triangle_edge_ac() {
    let mut s = simplex_of(&[A, B, C]);
    s.project_origin_and_reduce(SimplexLocation::OnEdge(2, [0.25, 0.75]));
    assert_eq!(points(&s), vec![A, C]);
    assert_eq!((s.proj_coord(0), s.proj_coord(1)), (0.25, 0.75));
}

#[test]
fn triangle_face_keeps_all_vertices() {
    let mut s = simplex_of(&[A, B, C]);
    s.project_origin_and_reduce(SimplexLocation::OnFace(0, [0.5, 0.25, 0.25]));
    assert_eq!(s.dimension(), 2);
    assert_eq!(points(&s), vec![A, B, C]);
    assert_eq!((s.proj_coord(0), s.proj_coord(1), s.proj_coord(2)), (0.5, 0.25, 0.25));
}

#[test]
fn tetrahedron_vertex_d() {
    let mut s = simplex_of(&[A, B, C, D]);
    s.project_origin_and_reduce(SimplexLocation::OnVertex(3));
    assert_eq!(points(&s), vec![D]);
    assert_eq!(s.proj_coord(0), 1.0);
    assert_eq!(prev_points(&s), vec![A, B, C]);
}

#[test]
fn tetrahedron_edges() {
    let cases: [(usize, Vec<Pt>, (f64, f64)); 6] = [
        (0, vec![A, B], (0.25, 0.75)),
        (1, vec![A, C], (0.25, 0.75)),
        (2, vec![A, D], (0.25, 0.75)),
        (3, vec![C, B], (0.75, 0.25)),
        (4, vec![D, B], (0.75, 0.25)),
        (5, vec![C, D], (0.25, 0.75)),
    ];
    for (e, pts, w) in cases {
        let mut s = simplex_of(&[A, B, C, D]);
        s.project_origin_and_reduce(SimplexLocation::OnEdge(e, [0.25, 0.75]));
        assert_eq!(s.dimension(), 1);
        assert_eq!(points(&s), pts, "edge {}", e);
        assert_eq!((s.proj_coord(0), s.proj_coord(1)), w, "edge {}", e);
        assert_eq!(prev_points(&s), vec![A, B, C]);
    }
}

#[test]
fn tetrahedron_faces() {
    let c = [0.5, 0.3, 0.2];
    let cases: [(usize, Vec<Pt>, (f64, f64, f64)); 4] = [
        (0, vec![A, B, C], (0.5, 0.3, 0.2)),
        (1, vec![A, B, D], (0.5, 0.3, 0.2)),
        (2, vec![A, D, C], (0.5, 0.2, 0.3)),
        (3, vec![D, B, C], (0.2, 0.5, 0.3)),
    ];
    for (f, pts, w) in cases {
        let mut s = simplex_of(&[A, B, C, D]);
        s.project_origin_and_reduce(SimplexLocation::OnFace(f, c));
        assert_eq!(s.dimension(), 2);
        assert_eq!(points(&s), pts, "face {}", f);
        assert_eq!((s.proj_coord(0), s.proj_coord(1), s.proj_coord(2)), w, "face {}", f);
        assert_eq!(prev_points(&s), vec![A, B, C]);
    }
}

#[test]
fn tetrahedron_solid_keeps_everything() {
    let mut s = simplex_of(&[A, B, C, D]);
    s.project_origin_and_reduce(SimplexLocation::OnSolid);
    assert_eq!(s.dimension(), 3);
    assert_eq!(points(&s), vec![A, B, C, D]);
}

#[test]
fn reducing_twice_is_reducing_once() {
    let mut s = simplex_of(&[A, B, C, D]);
    s.project_origin_and_reduce(SimplexLocation::OnFace(3, [0.5, 0.3, 0.2]));
    let once = (points(&s), [s.proj_coord(0), s.proj_coord(1), s.proj_coord(2)]);
    let w = once.1;
    s.project_origin_and_reduce(SimplexLocation::OnFace(0, w));
    let twice = (points(&s), [s.proj_coord(0), s.proj_coord(1), s.proj_coord(2)]);
    assert_eq!(once, twice);

    let mut s = simplex_of(&[A, B, C]);
    s.project_origin_and_reduce(SimplexLocation::OnEdge(1, [0.4, 0.6]));
    let once = (points(&s), [s.proj_coord(0), s.proj_coord(1)]);
    s.project_origin_and_reduce(SimplexLocation::OnEdge(0, once.1));
    assert_eq!(once, (points(&s), [s.proj_coord(0), s.proj_coord(1)]));
}

#[test]
fn swap_keeps_previous_points() {
    let mut s = simplex_of(&[A, B, C]);
    s.swap(0, 2);
    assert_eq!(points(&s), vec![C, B, A]);
    assert_eq!(prev_points(&s), vec![A, B]);
}

#[test]
fn contains_point_finds_only_current_vertices() {
    let s = simplex_of(&[A, B]);
    assert!(s.contains_point(&|p: Pt| p == B));
    assert!(!s.contains_point(&|p: Pt| p == C));
}

#[test]
fn modify_pnts_maps_current_vertices_only() {
    let mut s = simplex_of(&[A, B, C]);
    s.reset(A);
    assert!(s.add_point(B, false));
    s.modify_pnts(&|p: Pt| (p.0 + 10, p.1, p.2));
    assert_eq!(points(&s), vec![(11, 0, 0), (10, 2, 0)]);
    s.add_point(C, false);
    assert_eq!(points(&s), vec![(11, 0, 0), (10, 2, 0), C]);
}

#[test]
fn reduced_weights_still_sum_to_one() {
    let coords = [0.125, 0.25, 0.625];
    for f in 0..4 {
        let mut s = simplex_of(&[A, B, C, D]);
        s.project_origin_and_reduce(SimplexLocation::OnFace(f, coords));
        let total: f64 = (0..3).map(|i| s.proj_coord(i)).sum();
        assert_eq!(total, 1.0);
        assert!((0..3).all(|i| s.proj_coord(i) >= 0.0));
    }
    for e in 0..6 {
        let mut s = simplex_of(&[A, B, C, D]);
        s.project_origin_and_reduce(SimplexLocation::OnEdge(e, [0.375, 0.625]));
        assert_eq!(s.proj_coord(0) + s.proj_coord(1), 1.0);
    }
}
