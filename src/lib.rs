//! Proximity-query core: the combinatorial side of GJK, EPA and the
//! composite-shape distance search.
//!
//! - `voronoi_simplex`: the simplex that GJK refines, its reduction to the
//!   feature that holds the origin's projection, and its previous state;
//! - `gjk` and `ray_cast`: the decisions of the distance iteration and of the
//!   separating-axis ray cast, as machines fed with what the caller measured;
//! - `polytope`: the growing polytope of the 2D Expanding Polytope Algorithm;
//! - `composite`: the leaf step of the best-first search over a bounding
//!   volume tree;
//! - `voxels`: triangle meshes of voxel sets.
//!
//! Scalars and points are type parameters: the library moves them, keeps
//! track of which vertex carries which barycentric weight, and leaves the
//! arithmetic on them to its callers.
use vstd::prelude::*;

pub mod composite;
pub mod epa;
pub mod gjk;
pub mod polytope;
pub mod ray_cast;
pub mod voronoi_simplex;
pub mod voxels;

pub use composite::{visit_leaves, LeafVisit, SIMD_WIDTH};
pub use epa::{EpaAction, EpaEvent, EpaMachine, EpaOutcome, EpaPhase, EpaView};
pub use gjk::{result, Direction, GjkAction, GjkEvent, GjkMachine, GjkOutcome, GjkPhase, Witnesses};
pub use polytope::{Face, Polytope};
pub use ray_cast::{Clip, RayAction, RayCastMachine, RayEvent, RayOutcome, RayPhase};
pub use voronoi_simplex::{SimplexLocation, VoronoiSimplex};
pub use voxels::Voxels;

verus! {

} // verus!
