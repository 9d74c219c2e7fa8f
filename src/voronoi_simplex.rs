//! A simplex of one to four vertices that tracks which sub-feature holds the
//! projection of the origin, and what it looked like before the last change.
use vstd::multiset::Multiset;
use vstd::prelude::*;

verus! {

/// Where the projection of the origin falls on a segment, a triangle or a
/// tetrahedron, as the projection primitives report it.
///
/// Edge and face numbers follow the primitives' conventions:
/// - segment `ab`: edge `0` is `ab`, with weights for `(a, b)`;
/// - triangle `abc`: edges `0 = ab`, `1 = bc`, `2 = ac`, with weights for the
///   two ends in that order; the face weights are for `(a, b, c)`;
/// - tetrahedron `abcd`: edges `0 = ab`, `1 = ac`, `2 = ad`, `3 = bc`,
///   `4 = bd`, `5 = cd`; faces `0 = abc`, `1 = abd`, `2 = acd`, `3 = bcd`,
///   with weights for the vertices in the order the name lists them.
pub enum SimplexLocation<C> {
    OnVertex(usize),
    OnEdge(usize, [C; 2]),
    OnFace(usize, [C; 3]),
    OnSolid,
}

/// The locations that the projection primitive of a simplex of dimension
/// `dim` can report.
pub open spec fn location_fits<C>(dim: nat, loc: SimplexLocation<C>) -> bool {
    if dim == 0 {
        true
    } else if dim == 1 {
        match loc {
            SimplexLocation::OnVertex(i) => i < 2,
            SimplexLocation::OnEdge(e, _) => e == 0,
            _ => false,
        }
    } else if dim == 2 {
        match loc {
            SimplexLocation::OnVertex(i) => i < 3,
            SimplexLocation::OnEdge(e, _) => e < 3,
            _ => true,
        }
    } else {
        match loc {
            SimplexLocation::OnVertex(i) => i < 4,
            SimplexLocation::OnEdge(e, _) => e < 6,
            SimplexLocation::OnFace(f, _) => f < 4,
            SimplexLocation::OnSolid => true,
        }
    }
}

impl<C> SimplexLocation<C> {
    /// Whether a projection primitive of a simplex of dimension `dim` can
    /// report this location.
    pub fn fits(&self, dim: usize) -> (r: bool)
        ensures
            r == location_fits(dim as nat, *self),
    {
        if dim == 0 {
            true
        } else if dim == 1 {
            match self {
                SimplexLocation::OnVertex(i) => *i < 2,
                SimplexLocation::OnEdge(e, _) => *e == 0,
                _ => false,
            }
        } else if dim == 2 {
            match self {
                SimplexLocation::OnVertex(i) => *i < 3,
                SimplexLocation::OnEdge(e, _) => *e < 3,
                _ => true,
            }
        } else {
            match self {
                SimplexLocation::OnVertex(i) => *i < 4,
                SimplexLocation::OnEdge(e, _) => *e < 6,
                SimplexLocation::OnFace(f, _) => *f < 4,
                SimplexLocation::OnSolid => true,
            }
        }
    }
}

/// The slots of the feature that holds the projection, in the order in which
/// the reduced simplex lists them.
pub open spec fn feature_slots<C>(dim: nat, loc: SimplexLocation<C>) -> Seq<int> {
    if dim == 0 {
        seq![0]
    } else {
        match loc {
            SimplexLocation::OnVertex(i) => seq![i as int],
            SimplexLocation::OnEdge(e, _) => if dim == 2 && e == 1 {
                seq![2, 1]
            } else if dim == 2 && e == 2 {
                seq![0, 2]
            } else if dim == 3 && e == 1 {
                seq![0, 2]
            } else if dim == 3 && e == 2 {
                seq![0, 3]
            } else if dim == 3 && e == 3 {
                seq![2, 1]
            } else if dim == 3 && e == 4 {
                seq![3, 1]
            } else if dim == 3 && e == 5 {
                seq![2, 3]
            } else {
                seq![0, 1]
            },
            SimplexLocation::OnFace(f, _) => if dim == 3 && f == 1 {
                seq![0, 1, 3]
            } else if dim == 3 && f == 2 {
                seq![0, 3, 2]
            } else if dim == 3 && f == 3 {
                seq![3, 1, 2]
            } else {
                seq![0, 1, 2]
            },
            SimplexLocation::OnSolid => if dim == 2 {
                seq![0, 1, 2]
            } else {
                seq![0, 1, 2, 3]
            },
        }
    }
}

/// The weights after the reduction: the location's barycentric coordinates,
/// listed in the order of `feature_slots`; `one` for a lone vertex. Entries
/// that the reduced simplex does not use keep their values from `w`.
pub open spec fn reduced_weights<C>(dim: nat, loc: SimplexLocation<C>, w: Seq<C>, one: C) -> Seq<C> {
    if dim == 0 {
        w.update(0, one)
    } else {
        match loc {
            SimplexLocation::OnVertex(_) => w.update(0, one),
            SimplexLocation::OnEdge(e, c) => if dim == 3 && (e == 3 || e == 4) || dim == 2 && e == 1 {
                w.update(0, c[1]).update(1, c[0])
            } else {
                w.update(0, c[0]).update(1, c[1])
            },
            SimplexLocation::OnFace(f, c) => if dim == 3 && f == 2 {
                seq![c[0], c[2], c[1]]
            } else if dim == 3 && f == 3 {
                seq![c[2], c[0], c[1]]
            } else {
                c@
            },
            SimplexLocation::OnSolid => w,
        }
    }
}

/// The location that a projection primitive reports for the whole of a
/// simplex of dimension `dim` whose weights are `w`: the open edge, the
/// interior of the triangle, or the solid tetrahedron (any location for a
/// single vertex, whose reduction does not look at it).
pub open spec fn covers_whole<C>(dim: nat, w: Seq<C>, loc: SimplexLocation<C>) -> bool {
    if dim == 0 {
        true
    } else if dim == 1 {
        match loc {
            SimplexLocation::OnEdge(e, c) => e == 0 && c@ == w.subrange(0, 2),
            _ => false,
        }
    } else if dim == 2 {
        match loc {
            SimplexLocation::OnFace(_, c) => c@ == w,
            _ => false,
        }
    } else {
        loc is OnSolid
    }
}

/// Reducing twice is reducing once: once a simplex has been shrunk to the
/// feature that holds the projection, a second reduction, told that the
/// projection covers the whole (smaller) simplex with the weights it already
/// carries, keeps every vertex in its place and every weight as it is.
pub proof fn lemma_reduce_twice<C>(
    dim: nat,
    loc: SimplexLocation<C>,
    w: Seq<C>,
    one: C,
    again: SimplexLocation<C>,
)
    requires
        dim <= 3,
        w.len() == 3,
        location_fits(dim, loc),
        covers_whole(
            (feature_slots(dim, loc).len() - 1) as nat,
            reduced_weights(dim, loc, w, one),
            again,
        ),
    ensures
        ({
            let d1 = (feature_slots(dim, loc).len() - 1) as nat;
            let w1 = reduced_weights(dim, loc, w, one);
            &&& location_fits(d1, again)
            &&& feature_slots(d1, again) == Seq::new(d1 + 1, |k: int| k)
            &&& reduced_weights(d1, again, w1, one) == w1
        }),
{
    let d1 = (feature_slots(dim, loc).len() - 1) as nat;
    let w1 = reduced_weights(dim, loc, w, one);
    assert(feature_slots(d1, again) =~= Seq::new(d1 + 1, |k: int| k));
    assert(reduced_weights(d1, again, w1, one) =~= w1);
}

proof fn lemma_multiset_of_two<C>(x: C, y: C)
    ensures
        seq![x, y].to_multiset() =~= Multiset::<C>::empty().insert(x).insert(y),
        seq![y, x].to_multiset() =~= Multiset::<C>::empty().insert(x).insert(y),
{
    broadcast use vstd::seq_lib::to_multiset_build, vstd::multiset::group_multiset_axioms;

    assert(seq![x, y] =~= Seq::<C>::empty().push(x).push(y));
    assert(seq![y, x] =~= Seq::<C>::empty().push(y).push(x));
    vstd::seq_lib::to_multiset_len(Seq::<C>::empty());
    vstd::multiset::lemma_multiset_empty_len(Seq::<C>::empty().to_multiset());
    assert(Seq::<C>::empty().to_multiset() =~= Multiset::<C>::empty());
}

proof fn lemma_multiset_of_three<C>(x: C, y: C, z: C)
    ensures
        seq![x, y, z].to_multiset() =~= Multiset::<C>::empty().insert(x).insert(y).insert(z),
        seq![x, z, y].to_multiset() =~= Multiset::<C>::empty().insert(x).insert(y).insert(z),
        seq![z, x, y].to_multiset() =~= Multiset::<C>::empty().insert(x).insert(y).insert(z),
{
    broadcast use vstd::seq_lib::to_multiset_build, vstd::multiset::group_multiset_axioms;

    assert(seq![x, y, z] =~= Seq::<C>::empty().push(x).push(y).push(z));
    assert(seq![x, z, y] =~= Seq::<C>::empty().push(x).push(z).push(y));
    assert(seq![z, x, y] =~= Seq::<C>::empty().push(z).push(x).push(y));
    vstd::seq_lib::to_multiset_len(Seq::<C>::empty());
    vstd::multiset::lemma_multiset_empty_len(Seq::<C>::empty().to_multiset());
    assert(Seq::<C>::empty().to_multiset() =~= Multiset::<C>::empty());
}

/// The reduction only reorders the barycentric coordinates that the
/// projection gives: the weights of the reduced edge or triangle are the
/// location's coordinates, each used once, so they add up as those do. A
/// lone vertex carries `one`; the solid tetrahedron keeps its weights.
pub proof fn lemma_reduced_weights_are_coordinates<C>(
    dim: nat,
    loc: SimplexLocation<C>,
    w: Seq<C>,
    one: C,
)
    requires
        dim <= 3,
        w.len() == 3,
        location_fits(dim, loc),
    ensures
        ({
            let r = reduced_weights(dim, loc, w, one);
            &&& r.len() == 3
            &&& dim == 0 ==> r[0] == one
            &&& dim > 0 ==> match loc {
                SimplexLocation::OnVertex(_) => r[0] == one,
                SimplexLocation::OnEdge(_, c) => r.subrange(0, 2).to_multiset() == c@.to_multiset(),
                SimplexLocation::OnFace(_, c) => r.to_multiset() == c@.to_multiset(),
                SimplexLocation::OnSolid => r == w,
            }
        }),
{
    let r = reduced_weights(dim, loc, w, one);
    if dim > 0 {
        match loc {
            SimplexLocation::OnEdge(_, c) => {
                lemma_multiset_of_two(c[0], c[1]);
                assert(c@ =~= seq![c[0], c[1]]);
                let r2 = r.subrange(0, 2);
                if r2 =~= seq![c[1], c[0]] {
                } else {
                    assert(r2 =~= seq![c[0], c[1]]);
                }
            },
            SimplexLocation::OnFace(_, c) => {
                lemma_multiset_of_three(c[0], c[1], c[2]);
                assert(c@ =~= seq![c[0], c[1], c[2]]);
                if r =~= seq![c[0], c[2], c[1]] {
                } else if r =~= seq![c[2], c[0], c[1]] {
                } else {
                    assert(r =~= seq![c[0], c[1], c[2]]);
                }
            },
            _ => {},
        }
    }
}

/// A simplex of dimension up to 3 that uses Voronoi regions to decide which
/// feature holds the projection of the origin.
///
/// `P` is the vertex type (a point of the configuration-space obstacle) and
/// `C` the type of the barycentric weights.
pub struct VoronoiSimplex<P, C> {
    prev_vertices: [usize; 4],
    prev_proj: [C; 3],
    prev_dim: usize,
    vertices: [P; 4],
    proj: [C; 3],
    dim: usize,
    one: C,
}

impl<P: Copy, C: Copy> VoronoiSimplex<P, C> {
    /// Slots `0..=dim` of the vertex storage hold the simplex; the mirror
    /// indexes into the four slots.
    pub closed spec fn wf(&self) -> bool {
        &&& self.dim <= 3
        &&& self.prev_dim < 3
        &&& forall|i: int| 0 <= i < 4 ==> self.prev_vertices[i] < 4
        &&& forall|i: int, j: int|
            0 <= i < 4 && 0 <= j < 4 && i != j ==> self.prev_vertices[i] != self.prev_vertices[j]
    }

    /// The mirror names slot `i` as the `i`-th previous vertex, as it does
    /// right after an insertion.
    pub open spec fn mirror_is_identity(&self) -> bool {
        forall|i: int| 0 <= i < 4 ==> self.prev_slot(i) == i
    }

    /// Inserts `pt` as a new vertex, unless the caller found it `degenerate`:
    /// within tolerance of the affine hull of the current vertices (a
    /// duplicate, colinear or coplanar point). Either way the current simplex
    /// and its weights are first saved as the previous state.
    ///
    /// Returns whether the point was inserted.
    pub fn add_point(&mut self, pt: P, degenerate: bool) -> (r: bool)
        requires
            old(self).wf(),
            old(self).dim_view() < 3,
        ensures
            final(self).wf(),
            r == !degenerate,
            final(self).mirror_is_identity(),
            final(self).prev_dim_view() == old(self).dim_view(),
            final(self).prev_weights() == old(self).weights(),
            final(self).prev_points() == old(self).points(),
            final(self).weights() == old(self).weights(),
            final(self).unit() == old(self).unit(),
            r ==> final(self).dim_view() == old(self).dim_view() + 1,
            r ==> final(self).slots() == old(self).slots().update(old(self).dim_view() + 1int, pt),
            r ==> final(self).points() == old(self).points().push(pt),
            !r ==> final(self).dim_view() == old(self).dim_view(),
            !r ==> final(self).slots() == old(self).slots(),
    {
        self.prev_dim = self.dim;
        self.prev_proj = self.proj;
        self.prev_vertices = [0, 1, 2, 3];
        assert(self.prev_points() =~= old(self).points());
        if degenerate {
            return false;
        }
        self.dim = self.dim + 1;
        self.vertices[self.dim] = pt;
        assert(self.points() =~= old(self).points().push(pt));
        assert(self.prev_points() =~= old(self).points());
        true
    }

    /// Shrinks the simplex to the feature that holds the projection of the
    /// origin, as reported by the projection primitive in `location`.
    ///
    /// The feature's vertices come first, in the order of `feature_slots`,
    /// and the weights are the location's barycentric coordinates in that
    /// order (`one` for a vertex). The reordering is made of slot swaps that
    /// the mirror follows, so the previous state still reads the same points.
    pub fn project_origin_and_reduce(&mut self, location: SimplexLocation<C>)
        requires
            old(self).wf(),
            location_fits(old(self).dim_view(), location),
        ensures
            final(self).wf(),
            final(self).dim_view() + 1 == feature_slots(old(self).dim_view(), location).len(),
            final(self).points() == feature_slots(old(self).dim_view(), location).map_values(
                |k: int| old(self).slots()[k],
            ),
            final(self).weights() == reduced_weights(
                old(self).dim_view(),
                location,
                old(self).weights(),
                old(self).unit(),
            ),
            final(self).unit() == old(self).unit(),
            final(self).prev_dim_view() == old(self).prev_dim_view(),
            final(self).prev_weights() == old(self).prev_weights(),
            old(self).mirror_is_identity() ==> final(self).prev_points() == old(self).prev_points(),
    {
        let ghost s0 = self.slots();
        let one = self.one;
        if self.dim == 0 {
            self.proj[0] = one;
        } else {
            match location {
                SimplexLocation::OnVertex(i) => {
                    self.swap(0, i);
                    self.proj[0] = one;
                    self.dim = 0;
                },
                SimplexLocation::OnEdge(e, c) => {
                    if self.dim == 2 {
                        if e == 1 {
                            self.swap(0, 2);
                        } else if e == 2 {
                            self.swap(1, 2);
                        }
                    } else if self.dim == 3 {
                        if e == 1 {
                            self.swap(1, 2);
                        } else if e == 2 {
                            self.swap(1, 3);
                        } else if e == 3 {
                            self.swap(0, 2);
                        } else if e == 4 {
                            self.swap(0, 3);
                        } else if e == 5 {
                            self.swap(0, 2);
                            self.swap(1, 3);
                        }
                    }
                    if self.dim == 3 && (e == 3 || e == 4) || self.dim == 2 && e == 1 {
                        self.proj[0] = c[1];
                        self.proj[1] = c[0];
                    } else {
                        self.proj[0] = c[0];
                        self.proj[1] = c[1];
                    }
                    self.dim = 1;
                },
                SimplexLocation::OnFace(f, c) => {
                    if self.dim == 3 && f == 1 {
                        self.swap(2, 3);
                        self.proj = c;
                    } else if self.dim == 3 && f == 2 {
                        self.swap(1, 3);
                        self.proj = [c[0], c[2], c[1]];
                    } else if self.dim == 3 && f == 3 {
                        self.swap(0, 3);
                        self.proj = [c[2], c[0], c[1]];
                    } else {
                        self.proj = c;
                    }
                    self.dim = 2;
                },
                SimplexLocation::OnSolid => {},
            }
        }
        assert(self.points() =~= feature_slots(old(self).dim_view(), location).map_values(
            |k: int| s0[k],
        ));
        assert(self.weights() =~= reduced_weights(
            old(self).dim_view(),
            location,
            old(self).weights(),
            old(self).unit(),
        ));
        assert(old(self).mirror_is_identity() ==> self.prev_points() =~= old(self).prev_points());
    }

    /// Tests whether a vertex of the simplex is the point that `is_pt`
    /// recognises (the caller's equality test on points).
    pub fn contains_point<F: Fn(P) -> bool>(&self, is_pt: &F) -> (r: bool)
        requires
            self.wf(),
            forall|v: P| is_pt.requires((v,)),
        ensures
            r ==> exists|i: int| 0 <= i <= self.dim_view() && is_pt.ensures((self.points()[i],), true),
            !r ==> forall|i: int|
                0 <= i <= self.dim_view() ==> is_pt.ensures((self.points()[i],), false),
    {
        let mut i: usize = 0;
        while i <= self.dim
            invariant
                self.wf(),
                forall|v: P| is_pt.requires((v,)),
                i <= self.dim + 1,
                forall|j: int| 0 <= j < i ==> is_pt.ensures((self.points()[j],), false),
            decreases self.dim + 1 - i,
        {
            if is_pt(self.vertices[i]) {
                assert(self.points()[i as int] == self.vertices[i as int]);
                return true;
            }
            i = i + 1;
        }
        false
    }

    /// Replaces each vertex `v` of the simplex by `f(v)`. The slots past the
    /// simplex, the weights and the previous state are left as they are.
    pub fn modify_pnts<F: Fn(P) -> P>(&mut self, f: &F)
        requires
            old(self).wf(),
            forall|v: P| f.requires((v,)),
        ensures
            final(self).wf(),
            final(self).dim_view() == old(self).dim_view(),
            final(self).slots().len() == 4,
            forall|i: int|
                0 <= i <= old(self).dim_view() ==> f.ensures(
                    (old(self).slots()[i],),
                    final(self).slots()[i],
                ),
            forall|i: int| old(self).dim_view() < i < 4 ==> final(self).slots()[i] == old(self).slots()[i],
            final(self).weights() == old(self).weights(),
            final(self).unit() == old(self).unit(),
            final(self).prev_dim_view() == old(self).prev_dim_view(),
            final(self).prev_weights() == old(self).prev_weights(),
            forall|i: int| 0 <= i < 4 ==> final(self).prev_slot(i) == old(self).prev_slot(i),
    {
        let mut i: usize = 0;
        while i <= self.dim
            invariant
                self.wf(),
                forall|v: P| f.requires((v,)),
                i <= self.dim + 1,
                self.dim == old(self).dim,
                self.proj == old(self).proj,
                self.one == old(self).one,
                self.prev_dim == old(self).prev_dim,
                self.prev_proj == old(self).prev_proj,
                self.prev_vertices == old(self).prev_vertices,
                forall|j: int| 0 <= j < i ==> f.ensures((old(self).slots()[j],), self.slots()[j]),
                forall|j: int| i <= j < 4 ==> self.slots()[j] == old(self).slots()[j],
            decreases self.dim + 1 - i,
        {
            let ghost before = self.slots();
            let v = f(self.vertices[i]);
            self.vertices[i] = v;
            assert(f.ensures((old(self).slots()[i as int],), self.slots()[i as int]));
            assert forall|j: int| 0 <= j < i + 1 implies f.ensures(
                (old(self).slots()[j],),
                self.slots()[j],
            ) by {
                if j < i {
                    assert(self.slots()[j] == before[j]);
                }
            }
            i = i + 1;
        }
    }

    /// The dimension of the simplex.
    pub closed spec fn dim_view(&self) -> nat {
        self.dim as nat
    }

    /// The four vertex slots; the simplex is the first `dim + 1` of them.
    pub closed spec fn slots(&self) -> Seq<P> {
        self.vertices@
    }

    /// The vertices of the simplex, in order.
    pub open spec fn points(&self) -> Seq<P> {
        self.slots().subrange(0, self.dim_view() + 1int)
    }

    /// The barycentric weights of the last projection, one per slot `0..3`.
    pub closed spec fn weights(&self) -> Seq<C> {
        self.proj@
    }

    /// The weight that a single vertex carries.
    pub closed spec fn unit(&self) -> C {
        self.one
    }

    /// The dimension before the last insertion.
    pub closed spec fn prev_dim_view(&self) -> nat {
        self.prev_dim as nat
    }

    /// The slot that held the `i`-th vertex of the previous simplex.
    pub closed spec fn prev_slot(&self, i: int) -> int {
        self.prev_vertices[i] as int
    }

    /// The vertices of the simplex before the last insertion, in order.
    pub open spec fn prev_points(&self) -> Seq<P> {
        Seq::new(self.prev_dim_view() + 1nat, |i: int| self.slots()[self.prev_slot(i)])
    }

    /// The barycentric weights before the last insertion.
    pub closed spec fn prev_weights(&self) -> Seq<C> {
        self.prev_proj@
    }

    /// The simplex has `dim + 1` vertices, out of four slots.
    pub proof fn lemma_points_len(&self)
        requires
            self.wf(),
        ensures
            self.dim_view() <= 3,
            self.slots().len() == 4,
            self.points().len() == self.dim_view() + 1,
            self.weights().len() == 3,
            self.prev_weights().len() == 3,
    {
    }

    /// Creates a simplex made of the single vertex `origin`, with every
    /// weight set to `zero`; `one` is the weight that a lone vertex carries.
    pub fn new(origin: P, zero: C, one: C) -> (r: Self)
        ensures
            r.wf(),
            r.dim_view() == 0,
            r.prev_dim_view() == 0,
            r.slots() == seq![origin, origin, origin, origin],
            r.points() == seq![origin],
            r.prev_points() == seq![origin],
            r.weights() == seq![zero, zero, zero],
            r.prev_weights() == seq![zero, zero, zero],
            r.unit() == one,
            forall|i: int| 0 <= i < 4 ==> r.prev_slot(i) == i,
    {
        let r = VoronoiSimplex {
            prev_vertices: [0, 1, 2, 3],
            prev_proj: [zero, zero, zero],
            prev_dim: 0,
            vertices: [origin, origin, origin, origin],
            proj: [zero, zero, zero],
            dim: 0,
            one,
        };
        assert(r.slots() =~= seq![origin, origin, origin, origin]);
        assert(r.points() =~= seq![origin]);
        assert(r.prev_points() =~= seq![origin]);
        assert(r.weights() =~= seq![zero, zero, zero]);
        assert(r.prev_weights() =~= seq![zero, zero, zero]);
        r
    }

    /// Swaps two vertex slots, and the mirror entries with them, so that the
    /// previous simplex still names the same points.
    pub fn swap(&mut self, i1: usize, i2: usize)
        requires
            old(self).wf(),
            i1 < 4,
            i2 < 4,
        ensures
            final(self).wf(),
            final(self).slots() == old(self).slots().update(i1 as int, old(self).slots()[i2 as int]).update(
                i2 as int,
                old(self).slots()[i1 as int],
            ),
            final(self).dim_view() == old(self).dim_view(),
            final(self).weights() == old(self).weights(),
            final(self).unit() == old(self).unit(),
            final(self).prev_dim_view() == old(self).prev_dim_view(),
            final(self).prev_weights() == old(self).prev_weights(),
            forall|i: int|
                0 <= i < 4 ==> final(self).prev_slot(i) == (if i == i1 {
                    old(self).prev_slot(i2 as int)
                } else if i == i2 {
                    old(self).prev_slot(i1 as int)
                } else {
                    old(self).prev_slot(i)
                }),
            old(self).prev_slot(i1 as int) == i1 && old(self).prev_slot(i2 as int) == i2 ==> forall|
                i: int,
            |
                0 <= i < 4 ==> final(self).slots()[final(self).prev_slot(i)] == old(self).slots()[old(
                    self,
                ).prev_slot(i)],
    {
        let v1 = self.vertices[i1];
        let v2 = self.vertices[i2];
        self.vertices[i1] = v2;
        self.vertices[i2] = v1;
        let p1 = self.prev_vertices[i1];
        let p2 = self.prev_vertices[i2];
        self.prev_vertices[i1] = p2;
        self.prev_vertices[i2] = p1;
    }

    /// Makes this a simplex of the single vertex `pt`; the previous simplex
    /// becomes a single vertex too.
    pub fn reset(&mut self, pt: P)
        requires
            old(self).wf(),
        ensures
            final(self).wf(),
            final(self).dim_view() == 0,
            final(self).prev_dim_view() == 0,
            final(self).points() == seq![pt],
            final(self).slots() == old(self).slots().update(0, pt),
            final(self).weights() == old(self).weights(),
            final(self).prev_weights() == old(self).prev_weights(),
            final(self).unit() == old(self).unit(),
            forall|i: int| 0 <= i < 4 ==> final(self).prev_slot(i) == old(self).prev_slot(i),
    {
        self.dim = 0;
        self.prev_dim = 0;
        self.vertices[0] = pt;
        assert(self.points() =~= seq![pt]);
    }

    /// The dimension of the simplex.
    pub fn dimension(&self) -> (r: usize)
        ensures
            r == self.dim_view(),
    {
        self.dim
    }

    /// The dimension of the simplex before the last insertion: below 3, as
    /// an insertion needs room for one more vertex.
    pub fn prev_dimension(&self) -> (r: usize)
        requires
            self.wf(),
        ensures
            r == self.prev_dim_view(),
            r < 3,
    {
        self.prev_dim
    }

    /// The barycentric weight of the `i`-th vertex, as set by the last
    /// reduction.
    pub fn proj_coord(&self, i: usize) -> (r: C)
        requires
            self.wf(),
            i <= self.dim_view(),
            i < 3,
        ensures
            r == self.weights()[i as int],
    {
        self.proj[i]
    }

    /// The `i`-th vertex of the simplex.
    pub fn point(&self, i: usize) -> (r: &P)
        requires
            self.wf(),
            i <= self.dim_view(),
        ensures
            *r == self.points()[i as int],
    {
        &self.vertices[i]
    }

    /// The barycentric weight of the `i`-th vertex before the last insertion.
    pub fn prev_proj_coord(&self, i: usize) -> (r: C)
        requires
            self.wf(),
            i <= self.prev_dim_view(),
        ensures
            r == self.prev_weights()[i as int],
    {
        self.prev_proj[i]
    }

    /// The `i`-th vertex of the simplex before the last insertion.
    pub fn prev_point(&self, i: usize) -> (r: &P)
        requires
            self.wf(),
            i <= self.prev_dim_view(),
        ensures
            *r == self.prev_points()[i as int],
    {
        &self.vertices[self.prev_vertices[i]]
    }
}

} // verus!
