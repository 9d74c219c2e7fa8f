use parry_query::{Polytope, VoronoiSimplex};

fn ends(p: &Polytope<char>) -> Vec<([usize; 2], bool)> {
    (0..p.nb_faces()).map(|i| (p.face(i).pts, p.face(i).deleted)).collect()
}

#[test]
fn seed_takes_simplex_vertices() {
    let mut s: VoronoiSimplex<char, f64> = VoronoiSimplex::new('a', 0.0, 1.0);
    s.add_point('b', false);
    s.add_point('c', false);
    let mut p = Polytope::new();
    p.push_vertex('z');
    p.seed(&s);
    assert_eq!(p.nb_vertices(), 3);
    assert_eq!((*p.vertex(0), *p.vertex(1), *p.vertex(2)), ('a', 'b', 'c'));
    assert_eq!(p.nb_faces(), 0);
    p.flip_triangle();
    assert_eq!((*p.vertex(0), *p.vertex(1), *p.vertex(2)), ('a', 'c', 'b'));
}

#[test]
fn split_face_joins_new_vertex_to_both_ends() {
    let mut p = Polytope::new();
    p.push_vertex('a');
    p.push_vertex('b');
    assert_eq!(p.push_face(0, 1, false), 0);
    assert_eq!(p.push_face(1, 0, false), 1);
    let v = p.split_face(0, 'c', false, true);
    assert_eq!(v, 2);
    assert_eq!(*p.vertex(2), 'c');
    assert_eq!(
        ends(&p),
        vec![([0, 1], false), ([1, 0], false), ([0, 2], false), ([2, 1], true)]
    );
    p.delete_face(1);
    assert!(p.face(1).deleted);
    assert_eq!(p.face(1).pts, [1, 0]);
    p.reset();
    assert_eq!((p.nb_vertices(), p.nb_faces()), (0, 0));
}
