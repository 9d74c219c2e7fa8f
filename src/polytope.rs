//! The growing polytope of the two-dimensional Expanding Polytope Algorithm:
//! an append-only list of vertices and of edge faces between them.
use vstd::prelude::*;

use crate::voronoi_simplex::VoronoiSimplex;

verus! {

/// An edge of the polytope, from vertex `pts[0]` to vertex `pts[1]`
/// (counter-clockwise), and whether it was dropped as degenerate.
#[derive(Clone, Copy, Debug)]
pub struct Face {
    pub pts: [usize; 2],
    pub deleted: bool,
}

/// The vertices and faces of the polytope. Faces are never removed: a face
/// that is superseded or degenerate is flagged `deleted` instead.
pub struct Polytope<V> {
    vertices: Vec<V>,
    faces: Vec<Face>,
}

impl<V: Copy> Polytope<V> {
    /// Every face joins two existing vertices.
    pub open spec fn wf(&self) -> bool {
        forall|i: int|
            #![trigger self.face_seq()[i]]
            0 <= i < self.face_seq().len() ==> self.face_seq()[i].pts[0] < self.vertex_seq().len()
                && self.face_seq()[i].pts[1] < self.vertex_seq().len()
    }

    /// The vertices, in the order they were added.
    pub closed spec fn vertex_seq(&self) -> Seq<V> {
        self.vertices@
    }

    /// The faces, in the order they were added.
    pub closed spec fn face_seq(&self) -> Seq<Face> {
        self.faces@
    }

    /// An empty polytope.
    pub fn new() -> (r: Self)
        ensures
            r.wf(),
            r.vertex_seq() == Seq::<V>::empty(),
            r.face_seq() == Seq::<Face>::empty(),
    {
        Polytope { vertices: Vec::new(), faces: Vec::new() }
    }

    /// Forgets every vertex and face, keeping the storage.
    pub fn reset(&mut self)
        ensures
            final(self).wf(),
            final(self).vertex_seq() == Seq::<V>::empty(),
            final(self).face_seq() == Seq::<Face>::empty(),
    {
        self.vertices.clear();
        self.faces.clear();
    }

    /// Starts over from the vertices of a simplex that the distance search
    /// found to contain the origin.
    pub fn seed<C: Copy>(&mut self, simplex: &VoronoiSimplex<V, C>)
        requires
            simplex.wf(),
        ensures
            final(self).wf(),
            final(self).vertex_seq() == simplex.points(),
            final(self).face_seq() == Seq::<Face>::empty(),
    {
        self.vertices.clear();
        self.faces.clear();
        proof {
            simplex.lemma_points_len();
        }
        let n = simplex.dimension() + 1;
        let mut i: usize = 0;
        while i < n
            invariant
                simplex.wf(),
                n == simplex.dim_view() + 1,
                simplex.points().len() == n,
                i <= n,
                self.vertices@ == simplex.points().subrange(0, i as int),
                self.faces@ == Seq::<Face>::empty(),
            decreases n - i,
        {
            self.vertices.push(*simplex.point(i));
            i = i + 1;
            assert(self.vertices@ =~= simplex.points().subrange(0, i as int));
        }
        assert(simplex.points().subrange(0, n as int) =~= simplex.points());
    }

    /// Exchanges vertices `1` and `2`, to make a seed triangle
    /// counter-clockwise.
    pub fn flip_triangle(&mut self)
        requires
            old(self).vertex_seq().len() == 3,
            old(self).face_seq().len() == 0,
        ensures
            final(self).wf(),
            final(self).vertex_seq() == seq![
                old(self).vertex_seq()[0],
                old(self).vertex_seq()[2],
                old(self).vertex_seq()[1],
            ],
            final(self).face_seq() == old(self).face_seq(),
    {
        let b = self.vertices[1];
        let c = self.vertices[2];
        self.vertices.set(1, c);
        self.vertices.set(2, b);
        assert(self.vertices@ =~= seq![
            old(self).vertex_seq()[0],
            old(self).vertex_seq()[2],
            old(self).vertex_seq()[1],
        ]);
    }

    /// Appends a vertex and returns its index.
    pub fn push_vertex(&mut self, v: V) -> (r: usize)
        requires
            old(self).wf(),
        ensures
            final(self).wf(),
            r == old(self).vertex_seq().len(),
            final(self).vertex_seq() == old(self).vertex_seq().push(v),
            final(self).face_seq() == old(self).face_seq(),
    {
        let r = self.vertices.len();
        self.vertices.push(v);
        assert forall|i: int| 0 <= i < self.face_seq().len() implies self.face_seq()[i].pts[0]
            < self.vertex_seq().len() && self.face_seq()[i].pts[1] < self.vertex_seq().len() by {
            assert(self.face_seq()[i] == old(self).face_seq()[i]);
        }
        r
    }

    /// Appends the face from vertex `a` to vertex `b` and returns its index.
    pub fn push_face(&mut self, a: usize, b: usize, deleted: bool) -> (r: usize)
        requires
            old(self).wf(),
            a < old(self).vertex_seq().len(),
            b < old(self).vertex_seq().len(),
        ensures
            final(self).wf(),
            r == old(self).face_seq().len(),
            final(self).face_seq() == old(self).face_seq().push(Face { pts: [a, b], deleted }),
            final(self).vertex_seq() == old(self).vertex_seq(),
    {
        let r = self.faces.len();
        self.faces.push(Face { pts: [a, b], deleted });
        assert forall|i: int| 0 <= i < self.face_seq().len() implies self.face_seq()[i].pts[0]
            < self.vertex_seq().len() && self.face_seq()[i].pts[1] < self.vertex_seq().len() by {
            if i < old(self).face_seq().len() {
                assert(self.face_seq()[i] == old(self).face_seq()[i]);
            } else {
                assert(self.face_seq()[i].pts@ == seq![a, b]);
            }
        }
        r
    }

    /// Splits face `id` at the new support vertex `v`: appends `v` and the
    /// two faces that join it to the face's ends, in order, with the given
    /// flags. The old face stays, as it is. Returns the index of `v`.
    pub fn split_face(&mut self, id: usize, v: V, deleted1: bool, deleted2: bool) -> (r: usize)
        requires
            old(self).wf(),
            id < old(self).face_seq().len(),
        ensures
            final(self).wf(),
            r == old(self).vertex_seq().len(),
            final(self).vertex_seq() == old(self).vertex_seq().push(v),
            final(self).face_seq() == old(self).face_seq().push(
                Face { pts: [old(self).face_seq()[id as int].pts[0], r], deleted: deleted1 },
            ).push(Face { pts: [r, old(self).face_seq()[id as int].pts[1]], deleted: deleted2 }),
    {
        let f = self.faces[id];
        let r = self.push_vertex(v);
        self.push_face(f.pts[0], r, deleted1);
        self.push_face(r, f.pts[1], deleted2);
        r
    }

    /// Flags face `id` as deleted.
    pub fn delete_face(&mut self, id: usize)
        requires
            old(self).wf(),
            id < old(self).face_seq().len(),
        ensures
            final(self).wf(),
            final(self).vertex_seq() == old(self).vertex_seq(),
            final(self).face_seq() == old(self).face_seq().update(
                id as int,
                Face { pts: old(self).face_seq()[id as int].pts, deleted: true },
            ),
    {
        let f = self.faces[id];
        self.faces.set(id, Face { pts: f.pts, deleted: true });
    }

    /// The number of vertices.
    pub fn nb_vertices(&self) -> (r: usize)
        ensures
            r == self.vertex_seq().len(),
    {
        self.vertices.len()
    }

    /// The number of faces.
    pub fn nb_faces(&self) -> (r: usize)
        ensures
            r == self.face_seq().len(),
    {
        self.faces.len()
    }

    /// The `i`-th vertex.
    pub fn vertex(&self, i: usize) -> (r: &V)
        requires
            i < self.vertex_seq().len(),
        ensures
            *r == self.vertex_seq()[i as int],
    {
        &self.vertices[i]
    }

    /// The `i`-th face.
    pub fn face(&self, i: usize) -> (r: Face)
        requires
            i < self.face_seq().len(),
        ensures
            r == self.face_seq()[i as int],
    {
        self.faces[i]
    }
}

} // verus!
