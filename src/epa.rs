//! The decisions of the two-dimensional Expanding Polytope Algorithm.
//!
//! The caller owns the geometry: the polytope's vertices, the face normals,
//! the origin's projections, the support queries and the priority queue of
//! faces keyed by distance. It reports what it observed; `EpaMachine::step`
//! answers with what to do, and which observation comes next follows from
//! the machine's phase:
//! - `Start`: the dimension of the seed simplex (and, for a triangle,
//!   whether it is clockwise): `Seeded`;
//! - `Seed`: build the next seed face and measure it: `SeedFace`;
//! - `Pop`: pop the face closest to the origin: `Popped`;
//! - `Support`: query the support point along the popped face's normal and
//!   update the running bounds: `Supported`;
//! - `NewFace`: measure the next of the two faces of the split: `NewFace`.
use vstd::prelude::*;

use crate::gjk::MAX_ITERATIONS;

verus! {

/// How the search ended.
#[derive(Clone, Copy, PartialEq, Eq, Structural, Debug)]
pub enum EpaOutcome {
    /// The seed is a single point: the contact is vertex-vertex, the depth
    /// zero, and only the normal is to be found.
    VertexContact,
    /// The origin could not be located inside the seed, or a face lay on the
    /// wrong side of the origin.
    Failed,
    /// The witnesses and normal are those of this face.
    Face(usize),
}

/// What the caller does before its next observation.
#[derive(Clone, Copy, PartialEq, Eq, Structural, Debug)]
pub enum EpaAction {
    /// Exchange vertices 1 and 2 of the seed triangle, then build the seed
    /// faces.
    Flip,
    /// Queue this face, keyed by its distance to the origin.
    PushFace(usize),
    /// Add the support point as a vertex and split this face at it.
    SplitFace(usize),
    /// Nothing to do but the next observation.
    Proceed,
    /// Stop with this outcome.
    Finish(EpaOutcome),
}

/// The observation the search waits for.
#[derive(Clone, Copy, PartialEq, Eq, Structural, Debug)]
pub enum EpaPhase {
    Start,
    Seed,
    Pop,
    Support,
    NewFace,
    Done,
}

/// What the caller observed.
#[derive(Clone, Copy, PartialEq, Eq, Structural, Debug)]
pub enum EpaEvent {
    /// The seed simplex has dimension `dim`; for a triangle, `clockwise`
    /// tells whether its signed area is negative.
    Seeded { dim: usize, clockwise: bool },
    /// The seed face just built: whether the origin projects inside it
    /// (always, for the two faces of a segment), and whether its key was
    /// accepted (the face is not beyond the origin by more than the
    /// tolerance).
    SeedFace { inside: bool, key_ok: bool },
    /// The face popped from the queue, and whether it is flagged deleted.
    Popped { face: usize, deleted: bool },
    /// The support point along the popped face's normal: `improves` when
    /// it lowers the upper bound on the depth, `converged` when the bounds
    /// meet within the tolerance, `stalled` when the distance no longer
    /// moves while the bound still falls.
    Supported { improves: bool, converged: bool, stalled: bool },
    /// A face of the split: whether the origin projects inside it, whether
    /// it lies closer to the origin than the popped face (a numerical
    /// error), whether it is degenerate, and whether its key was accepted.
    NewFace { face: usize, inside: bool, below_current: bool, deleted: bool, key_ok: bool },
}

/// The state of the search.
#[derive(Clone, Copy)]
pub struct EpaView {
    pub phase: EpaPhase,
    /// The number of completed splits.
    pub niter: u32,
    /// The face with the lowest upper bound so far (the first face popped,
    /// until one improves on it).
    pub best: Option<usize>,
    /// The face being expanded.
    pub current: usize,
    /// The number of faces in the caller's queue.
    pub queued: usize,
    /// The number of seed faces: three for a triangle, two for a segment.
    pub seeds: usize,
    /// Which seed face, or which face of the split, is measured next.
    pub k: usize,
}

/// The observation that a phase waits for.
pub open spec fn epa_accepts(phase: EpaPhase, event: EpaEvent) -> bool {
    match event {
        EpaEvent::Seeded { dim, .. } => phase == EpaPhase::Start && dim <= 2,
        EpaEvent::SeedFace { .. } => phase == EpaPhase::Seed,
        EpaEvent::Popped { .. } => phase == EpaPhase::Pop,
        EpaEvent::Supported { .. } => phase == EpaPhase::Support,
        EpaEvent::NewFace { .. } => phase == EpaPhase::NewFace,
    }
}

/// The state after the search stopped.
pub open spec fn epa_done(s: EpaView) -> EpaView {
    EpaView { phase: EpaPhase::Done, ..s }
}

/// One step of the search:
/// - a single-point seed is a vertex contact; a triangle seed is first
///   made counter-clockwise; the seed faces are built next;
/// - a seed face that holds the projection is queued, unless its key is
///   refused, which fails the search; the search fails too when no seed
///   face holds the projection;
/// - the first face popped is the best one until a support point improves
///   on it; a deleted face is skipped;
/// - converged or stalled bounds end the search with the best face;
///   otherwise the popped face is split at the support point;
/// - a new face that holds the projection and lies below the popped face
///   ends the search with that face; one that holds the projection and is
///   not deleted is queued, unless its key is refused (failure);
/// - the search ends with the best face after the 101st split, or when the
///   queue runs out.
pub open spec fn epa_next(s: EpaView, e: EpaEvent) -> (EpaAction, EpaView) {
    match e {
        EpaEvent::Seeded { dim, clockwise } => if dim == 0 {
            (EpaAction::Finish(EpaOutcome::VertexContact), epa_done(s))
        } else {
            (
                if dim == 2 && clockwise {
                    EpaAction::Flip
                } else {
                    EpaAction::Proceed
                },
                EpaView {
                    phase: EpaPhase::Seed,
                    seeds: if dim == 2 {
                        3
                    } else {
                        2
                    },
                    k: 0,
                    ..s
                },
            )
        },
        EpaEvent::SeedFace { inside, key_ok } => if inside && !key_ok {
            (EpaAction::Finish(EpaOutcome::Failed), epa_done(s))
        } else {
            let q = if inside {
                (s.queued + 1) as usize
            } else {
                s.queued
            };
            let act = if inside {
                EpaAction::PushFace(s.k)
            } else {
                EpaAction::Proceed
            };
            if s.k + 1 < s.seeds {
                (act, EpaView { k: (s.k + 1) as usize, queued: q, ..s })
            } else if q == 0 {
                (EpaAction::Finish(EpaOutcome::Failed), epa_done(s))
            } else {
                (act, EpaView { phase: EpaPhase::Pop, queued: q, ..s })
            }
        },
        EpaEvent::Popped { face, deleted } => {
            let best = if s.best is None {
                Some(face)
            } else {
                s.best
            };
            let q = (s.queued - 1) as usize;
            if !deleted {
                (
                    EpaAction::Proceed,
                    EpaView { phase: EpaPhase::Support, current: face, queued: q, best, ..s },
                )
            } else if q > 0 {
                (EpaAction::Proceed, EpaView { queued: q, best, ..s })
            } else {
                (
                    EpaAction::Finish(EpaOutcome::Face(best->Some_0)),
                    epa_done(EpaView { queued: q, best, ..s }),
                )
            }
        },
        EpaEvent::Supported { improves, converged, stalled } => {
            let best = if improves {
                Some(s.current)
            } else {
                s.best
            };
            if converged || stalled {
                (EpaAction::Finish(EpaOutcome::Face(best->Some_0)), epa_done(EpaView { best, ..s }))
            } else {
                (EpaAction::SplitFace(s.current), EpaView { phase: EpaPhase::NewFace, k: 0, best, ..s })
            }
        },
        EpaEvent::NewFace { face, inside, below_current, deleted, key_ok } => if inside
            && below_current {
            (EpaAction::Finish(EpaOutcome::Face(face)), epa_done(s))
        } else if inside && !deleted && !key_ok {
            (EpaAction::Finish(EpaOutcome::Failed), epa_done(s))
        } else {
            let push = inside && !deleted;
            let q = if push {
                (s.queued + 1) as usize
            } else {
                s.queued
            };
            let act = if push {
                EpaAction::PushFace(face)
            } else {
                EpaAction::Proceed
            };
            if s.k == 0 {
                (act, EpaView { k: 1, queued: q, ..s })
            } else if s.niter + 1 > MAX_ITERATIONS || q == 0 {
                (EpaAction::Finish(EpaOutcome::Face(s.best->Some_0)), epa_done(s))
            } else {
                (act, EpaView { phase: EpaPhase::Pop, niter: (s.niter + 1) as u32, queued: q, ..s })
            }
        },
    }
}

/// The state of one penetration search.
pub struct EpaMachine {
    state: EpaView,
}

impl EpaMachine {
    pub closed spec fn view(&self) -> EpaView {
        self.state
    }

    pub open spec fn wf(&self) -> bool {
        let s = self.view();
        &&& s.niter <= MAX_ITERATIONS
        &&& s.phase == EpaPhase::Start ==> s.queued == 0 && s.niter == 0 && s.best is None
        &&& s.phase == EpaPhase::Seed ==> {
            &&& s.seeds == 2 || s.seeds == 3
            &&& s.k < s.seeds
            &&& s.queued <= s.k
            &&& s.niter == 0
            &&& s.best is None
        }
        &&& s.phase == EpaPhase::Pop ==> 0 < s.queued <= 3 + s.niter
        &&& s.phase == EpaPhase::Support ==> s.queued <= 2 + s.niter && s.best is Some
        &&& s.phase == EpaPhase::NewFace ==> {
            &&& s.k < 2
            &&& s.queued <= 2 + s.niter + s.k
            &&& s.best is Some
        }
    }

    /// The observation the search waits for.
    pub open spec fn phase_view(&self) -> EpaPhase {
        self.view().phase
    }

    /// An upper bound on the number of steps left before the search stops.
    pub open spec fn steps_left(&self) -> nat {
        let s = self.view();
        (40 * (MAX_ITERATIONS + 1 - s.niter) + 5 * s.queued + match s.phase {
            EpaPhase::Start => 200int,
            EpaPhase::Seed => 150 - 40 * s.k,
            EpaPhase::Pop => 30,
            EpaPhase::Support => 25,
            EpaPhase::NewFace => 20 - 10 * s.k,
            EpaPhase::Done => 0,
        }) as nat
    }

    /// Starts a search on the simplex of a GJK intersection.
    pub fn new() -> (r: Self)
        ensures
            r.wf(),
            r.view() == (EpaView {
                phase: EpaPhase::Start,
                niter: 0,
                best: None,
                current: 0,
                queued: 0,
                seeds: 0,
                k: 0,
            }),
    {
        EpaMachine {
            state: EpaView {
                phase: EpaPhase::Start,
                niter: 0,
                best: None,
                current: 0,
                queued: 0,
                seeds: 0,
                k: 0,
            },
        }
    }

    /// The observation the search waits for.
    pub fn phase(&self) -> (r: EpaPhase)
        ensures
            r == self.phase_view(),
    {
        self.state.phase
    }

    /// Which seed face, or which face of the split, is measured next.
    pub fn face_index(&self) -> (r: usize)
        ensures
            r == self.view().k,
    {
        self.state.k
    }

    /// The face being expanded: the one popped last.
    pub fn current_face(&self) -> (r: usize)
        ensures
            r == self.view().current,
    {
        self.state.current
    }

    /// Takes the observation the search waited for and decides what follows.
    pub fn step(&mut self, event: EpaEvent) -> (r: EpaAction)
        requires
            old(self).wf(),
            epa_accepts(old(self).phase_view(), event),
        ensures
            final(self).wf(),
            (r, final(self).view()) == epa_next(old(self).view(), event),
            !(r is Finish) ==> final(self).steps_left() < old(self).steps_left(),
            r is Finish <==> final(self).phase_view() == EpaPhase::Done,
    {
        let s = self.state;
        let (r, t) = match event {
            EpaEvent::Seeded { dim, clockwise } => {
                if dim == 0 {
                    (EpaAction::Finish(EpaOutcome::VertexContact), EpaView { phase: EpaPhase::Done, ..s })
                } else {
                    let act = if dim == 2 && clockwise {
                        EpaAction::Flip
                    } else {
                        EpaAction::Proceed
                    };
                    let seeds: usize = if dim == 2 {
                        3
                    } else {
                        2
                    };
                    (act, EpaView { phase: EpaPhase::Seed, seeds, k: 0, ..s })
                }
            },
            EpaEvent::SeedFace { inside, key_ok } => {
                if inside && !key_ok {
                    (EpaAction::Finish(EpaOutcome::Failed), EpaView { phase: EpaPhase::Done, ..s })
                } else {
                    let q = if inside {
                        s.queued + 1
                    } else {
                        s.queued
                    };
                    let act = if inside {
                        EpaAction::PushFace(s.k)
                    } else {
                        EpaAction::Proceed
                    };
                    if s.k + 1 < s.seeds {
                        (act, EpaView { k: s.k + 1, queued: q, ..s })
                    } else if q == 0 {
                        (EpaAction::Finish(EpaOutcome::Failed), EpaView { phase: EpaPhase::Done, ..s })
                    } else {
                        (act, EpaView { phase: EpaPhase::Pop, queued: q, ..s })
                    }
                }
            },
            EpaEvent::Popped { face, deleted } => {
                let best = match s.best {
                    None => Some(face),
                    Some(b) => Some(b),
                };
                let q = s.queued - 1;
                if !deleted {
                    (
                        EpaAction::Proceed,
                        EpaView { phase: EpaPhase::Support, current: face, queued: q, best, ..s },
                    )
                } else if q > 0 {
                    (EpaAction::Proceed, EpaView { queued: q, best, ..s })
                } else {
                    let b = match best {
                        Some(b) => b,
                        None => face,
                    };
                    (
                        EpaAction::Finish(EpaOutcome::Face(b)),
                        EpaView { phase: EpaPhase::Done, queued: q, best, ..s },
                    )
                }
            },
            EpaEvent::Supported { improves, converged, stalled } => {
                let best = if improves {
                    Some(s.current)
                } else {
                    s.best
                };
                if converged || stalled {
                    let b = match best {
                        Some(b) => b,
                        None => s.current,
                    };
                    (EpaAction::Finish(EpaOutcome::Face(b)), EpaView { phase: EpaPhase::Done, best, ..s })
                } else {
                    (
                        EpaAction::SplitFace(s.current),
                        EpaView { phase: EpaPhase::NewFace, k: 0, best, ..s },
                    )
                }
            },
            EpaEvent::NewFace { face, inside, below_current, deleted, key_ok } => {
                if inside && below_current {
                    (EpaAction::Finish(EpaOutcome::Face(face)), EpaView { phase: EpaPhase::Done, ..s })
                } else if inside && !deleted && !key_ok {
                    (EpaAction::Finish(EpaOutcome::Failed), EpaView { phase: EpaPhase::Done, ..s })
                } else {
                    let push = inside && !deleted;
                    let q = if push {
                        s.queued + 1
                    } else {
                        s.queued
                    };
                    let act = if push {
                        EpaAction::PushFace(face)
                    } else {
                        EpaAction::Proceed
                    };
                    if s.k == 0 {
                        (act, EpaView { k: 1, queued: q, ..s })
                    } else if s.niter + 1 > MAX_ITERATIONS || q == 0 {
                        let b = match s.best {
                            Some(b) => b,
                            None => face,
                        };
                        (EpaAction::Finish(EpaOutcome::Face(b)), EpaView { phase: EpaPhase::Done, ..s })
                    } else {
                        (act, EpaView { phase: EpaPhase::Pop, niter: s.niter + 1, queued: q, ..s })
                    }
                }
            },
        };
        self.state = t;
        r
    }
}

} // verus!
