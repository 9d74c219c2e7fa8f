//! Triangle meshes of voxel sets: two triangles for each free face.
use vstd::prelude::*;

verus! {

/// The corners of face `face` of a box, as indices of its eight vertices,
/// listed counter-clockwise seen from the positive side of the face's axis
/// (so from outside for the even faces, from inside for the odd ones).
///
/// The box's vertices are numbered as the bounding-box type lists them:
/// `0 = (-,-,-)`, `1 = (+,-,-)`, `2 = (+,+,-)`,
/// `3 = (-,+,-)`, then `4..8` the same at `+z`. Faces are `+x, -x, +y, -y,
/// +z, -z` in that order.
pub open spec fn face_corner(face: int, k: int) -> usize {
    seq![
        seq![1usize, 2, 6, 5],
        seq![0usize, 3, 7, 4],
        seq![2usize, 3, 7, 6],
        seq![1usize, 0, 4, 5],
        seq![4usize, 5, 6, 7],
        seq![0usize, 1, 2, 3],
    ][face][k]
}

/// Whether bit `face` of a free-face mask is set.
pub open spec fn face_is_free(mask: u8, face: int) -> bool {
    (mask >> (face as u8)) & 1u8 == 1u8
}

/// The free faces among faces `0..n` of voxel `v`, in order, as
/// `(voxel, face)` pairs.
pub open spec fn free_faces_upto(v: int, mask: u8, n: nat) -> Seq<(int, int)>
    decreases n,
{
    if n == 0 {
        seq![]
    } else {
        free_faces_upto(v, mask, (n - 1) as nat) + if face_is_free(mask, n - 1) {
            seq![(v, n - 1)]
        } else {
            seq![]
        }
    }
}

/// The free faces of the voxels whose masks are `masks`, voxel by voxel.
pub open spec fn free_faces(masks: Seq<u8>) -> Seq<(int, int)>
    decreases masks.len(),
{
    if masks.len() == 0 {
        seq![]
    } else {
        free_faces(masks.drop_last()) + free_faces_upto(masks.len() - 1, masks.last(), 6)
    }
}

/// The two triangles of the `k`-th emitted face, which is face `face` of its
/// box: they index vertices `4k .. 4k + 4`, wound so that the normal points
/// out of the box.
pub open spec fn face_triangles(k: int, face: int) -> Seq<Seq<int>> {
    let b = 4 * k;
    if face % 2 == 0 {
        seq![seq![b, b + 1, b + 2], seq![b, b + 2, b + 3]]
    } else {
        seq![seq![b, b + 2, b + 1], seq![b, b + 3, b + 2]]
    }
}

fn corner_of_face(face: usize, k: usize) -> (r: usize)
    requires
        face < 6,
        k < 4,
    ensures
        r == face_corner(face as int, k as int),
        r < 8,
{
    let ids: [usize; 4] = if face == 0 {
        [1, 2, 6, 5]
    } else if face == 1 {
        [0, 3, 7, 4]
    } else if face == 2 {
        [2, 3, 7, 6]
    } else if face == 3 {
        [1, 0, 4, 5]
    } else if face == 4 {
        [4, 5, 6, 7]
    } else {
        [0, 1, 2, 3]
    };
    ids[k]
}

/// `vtx` and `idx` are the mesh of the faces `faces` of the boxes centered
/// at the voxels' centers: four corners and two triangles per face, in order.
pub open spec fn mesh_of<V, F: Fn(V, usize) -> V>(
    voxels: Seq<(V, u8)>,
    corner: F,
    faces: Seq<(int, int)>,
    vtx: Seq<V>,
    idx: Seq<[u32; 3]>,
) -> bool {
    &&& vtx.len() == 4 * faces.len()
    &&& idx.len() == 2 * faces.len()
    &&& forall|k: int, j: int|
        #![trigger faces[k], vtx[4 * k + j]]
        0 <= k < faces.len() && 0 <= j < 4 ==> corner.ensures(
            (voxels[faces[k].0].0, face_corner(faces[k].1, j)),
            vtx[4 * k + j],
        )
    &&& forall|k: int, t: int, j: int|
        #![trigger faces[k], idx[2 * k + t][j]]
        0 <= k < faces.len() && 0 <= t < 2 && 0 <= j < 3 ==> idx[2 * k + t][j] == face_triangles(
            k,
            faces[k].1,
        )[t][j]
}

/// Every triangle of such a mesh indexes existing vertices: a mesh of
/// `n` faces has `4n` vertices and its indices stay below `4n`.
pub proof fn lemma_mesh_indices_in_range<V, F: Fn(V, usize) -> V>(
    voxels: Seq<(V, u8)>,
    corner: F,
    faces: Seq<(int, int)>,
    vtx: Seq<V>,
    idx: Seq<[u32; 3]>,
)
    requires
        mesh_of(voxels, corner, faces, vtx, idx),
    ensures
        forall|t: int, j: int| 0 <= t < idx.len() && 0 <= j < 3 ==> #[trigger] idx[t][j] < vtx.len(),
{
    assert forall|t: int, j: int| 0 <= t < idx.len() && 0 <= j < 3 implies #[trigger] idx[t][j]
        < vtx.len() by {
        let k = t / 2;
        let u = t % 2;
        assert(t == 2 * k + u);
        assert(idx[2 * k + u][j] == face_triangles(k, faces[k].1)[u][j]);
    }
}

proof fn lemma_mesh_push<V, F: Fn(V, usize) -> V>(
    voxels: Seq<(V, u8)>,
    corner: F,
    faces: Seq<(int, int)>,
    vtx: Seq<V>,
    idx: Seq<[u32; 3]>,
    face: (int, int),
    corners: Seq<V>,
    tris: Seq<[u32; 3]>,
)
    requires
        mesh_of(voxels, corner, faces, vtx, idx),
        corners.len() == 4,
        tris.len() == 2,
        forall|j: int|
            0 <= j < 4 ==> corner.ensures(
                (voxels[face.0].0, face_corner(face.1, j)),
                #[trigger] corners[j],
            ),
        forall|t: int, j: int|
            0 <= t < 2 && 0 <= j < 3 ==> #[trigger] tris[t][j] == face_triangles(
                faces.len() as int,
                face.1,
            )[t][j],
    ensures
        mesh_of(voxels, corner, faces.push(face), vtx + corners, idx + tris),
{
    let f2 = faces.push(face);
    let v2 = vtx + corners;
    let i2 = idx + tris;
    assert forall|k: int, j: int| 0 <= k < f2.len() && 0 <= j < 4 implies corner.ensures(
        (voxels[f2[k].0].0, face_corner(f2[k].1, j)),
        #[trigger] v2[4 * k + j],
    ) && #[trigger] f2[k] == f2[k] by {
        if k < faces.len() {
            assert(f2[k] == faces[k]);
            assert(v2[4 * k + j] == vtx[4 * k + j]);
        } else {
            assert(v2[4 * k + j] == corners[j]);
        }
    }
    assert forall|k: int, t: int, j: int| 0 <= k < f2.len() && 0 <= t < 2 && 0 <= j < 3 implies #[trigger] i2[2
        * k + t][j] == face_triangles(k, f2[k].1)[t][j] && #[trigger] f2[k] == f2[k] by {
        if k < faces.len() {
            assert(f2[k] == faces[k]);
            assert(i2[2 * k + t] == idx[2 * k + t]);
        } else {
            assert(i2[2 * k + t] == tris[t]);
        }
    }
}

proof fn lemma_free_faces_step(masks: Seq<u8>, v: int)
    requires
        0 <= v < masks.len(),
    ensures
        free_faces(masks.subrange(0, v + 1)) == free_faces(masks.subrange(0, v)) + free_faces_upto(
            v,
            masks[v],
            6,
        ),
{
    let m = masks.subrange(0, v + 1);
    assert(m.drop_last() =~= masks.subrange(0, v));
}

/// A set of equal boxes, each given by its center and the mask of its free
/// faces: bit `i` is set when face `i` (see `face_corner`) has no neighbour.
pub struct Voxels<V> {
    voxels: Vec<(V, u8)>,
}

impl<V: Copy> Voxels<V> {
    /// The voxels, in order.
    pub closed spec fn view_voxels(&self) -> Seq<(V, u8)> {
        self.voxels@
    }

    /// The free-face masks of the voxels, in order.
    pub open spec fn masks(&self) -> Seq<u8> {
        self.view_voxels().map_values(|vx: (V, u8)| vx.1)
    }

    /// Makes a voxel set of the given `(center, free-face mask)` pairs.
    pub fn new(voxels: Vec<(V, u8)>) -> (r: Self)
        ensures
            r.view_voxels() == voxels@,
    {
        Voxels { voxels }
    }

    /// Computes an unoptimised mesh of the voxels: for each free face of each
    /// voxel, in order, four vertices and two triangles. No effort is made to
    /// merge adjacent triangles on large flat areas.
    ///
    /// `corner(c, k)` is vertex `k` of the box centered at `c`.
    pub fn to_trimesh<F: Fn(V, usize) -> V>(&self, corner: &F) -> (r: (Vec<V>, Vec<[u32; 3]>))
        requires
            24 * self.view_voxels().len() <= u32::MAX,
            forall|c: V, k: usize| k < 8 ==> corner.requires((c, k)),
        ensures
            mesh_of(self.view_voxels(), *corner, free_faces(self.masks()), r.0@, r.1@),
    {
        let mut vtx: Vec<V> = Vec::new();
        let mut idx: Vec<[u32; 3]> = Vec::new();
        let n = self.voxels.len();
        let mut v: usize = 0;
        let ghost masks = self.masks();
        let ghost voxels = self.view_voxels();
        assert(masks.subrange(0, 0) =~= Seq::<u8>::empty());
        while v < n
            invariant
                n == voxels.len(),
                masks.len() == n,
                masks == self.masks(),
                voxels == self.view_voxels(),
                24 * n <= u32::MAX,
                v <= n,
                forall|c: V, k: usize| k < 8 ==> corner.requires((c, k)),
                free_faces(masks.subrange(0, v as int)).len() <= 6 * v,
                mesh_of(voxels, *corner, free_faces(masks.subrange(0, v as int)), vtx@, idx@),
            decreases n - v,
        {
            let (center, mask) = self.voxels[v];
            assert(mask == masks[v as int]);
            let ghost done = free_faces(masks.subrange(0, v as int));
            let mut i: usize = 0;
            while i < 6
                invariant
                    n == voxels.len(),
                    voxels == self.view_voxels(),
                    24 * n <= u32::MAX,
                    v < n,
                    i <= 6,
                    center == voxels[v as int].0,
                    done.len() <= 6 * v,
                    forall|c: V, k: usize| k < 8 ==> corner.requires((c, k)),
                    free_faces_upto(v as int, mask, i as nat).len() <= i,
                    mesh_of(voxels, *corner, done + free_faces_upto(v as int, mask, i as nat), vtx@, idx@),
                decreases 6 - i,
            {
                let ghost faces = done + free_faces_upto(v as int, mask, i as nat);
                if (mask >> (i as u8)) & 1u8 == 1u8 {
                    let base: u32 = vtx.len() as u32;
                    let c0 = corner(center, corner_of_face(i, 0));
                    let c1 = corner(center, corner_of_face(i, 1));
                    let c2 = corner(center, corner_of_face(i, 2));
                    let c3 = corner(center, corner_of_face(i, 3));
                    let t0: [u32; 3];
                    let t1: [u32; 3];
                    if i % 2 == 0 {
                        t0 = [base, base + 1, base + 2];
                        t1 = [base, base + 2, base + 3];
                    } else {
                        t0 = [base, base + 2, base + 1];
                        t1 = [base, base + 3, base + 2];
                    }
                    proof {
                        let corners = seq![c0, c1, c2, c3];
                        let tris = seq![t0, t1];
                        assert(forall|j: int| 0 <= j < 4 ==> corner.ensures(
                            (voxels[v as int].0, face_corner(i as int, j)),
                            #[trigger] corners[j],
                        ));
                        lemma_mesh_push(voxels, *corner, faces, vtx@, idx@, (v as int, i as int), corners, tris);
                        assert(faces.push((v as int, i as int)) =~= done + free_faces_upto(v as int, mask, (i + 1) as nat));
                        assert(vtx@ + corners =~= vtx@.push(c0).push(c1).push(c2).push(c3));
                        assert(idx@ + tris =~= idx@.push(t0).push(t1));
                    }
                    vtx.push(c0);
                    vtx.push(c1);
                    vtx.push(c2);
                    vtx.push(c3);
                    idx.push(t0);
                    idx.push(t1);
                } else {
                    assert(faces =~= done + free_faces_upto(v as int, mask, (i + 1) as nat));
                }
                i = i + 1;
            }
            proof {
                lemma_free_faces_step(masks, v as int);
            }
            v = v + 1;
        }
        assert(masks.subrange(0, n as int) =~= masks);
        (vtx, idx)
    }
}

} // verus!
