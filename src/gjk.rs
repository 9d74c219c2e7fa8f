//! The decisions of the Gilbert-Johnson-Keerthi distance iteration.
//!
//! The caller owns the geometry: it projects the origin on the simplex,
//! queries support points and measures the bounds. After each of those steps
//! it reports what it observed, and `GjkMachine::step` answers with what to
//! do next or with the final outcome.
use vstd::prelude::*;

use crate::voronoi_simplex::VoronoiSimplex;

verus! {

/// The number of iterations after which the search gives up.
pub const MAX_ITERATIONS: u32 = 100;

/// Which search direction a result is reported along.
#[derive(Clone, Copy, PartialEq, Eq, Structural, Debug)]
pub enum Direction {
    /// The direction of the current iteration (towards the origin from the
    /// projection just computed).
    Current,
    /// The direction of the iteration before.
    Previous,
}

/// Which barycentric weights the witness points are built from.
#[derive(Clone, Copy, PartialEq, Eq, Structural, Debug)]
pub enum Witnesses {
    /// The simplex as it is now.
    Current,
    /// The simplex as it was before the last insertion.
    Previous,
}

/// How the search ended.
#[derive(Clone, Copy, PartialEq, Eq, Structural, Debug)]
pub enum GjkOutcome {
    /// The origin lies on or inside the configuration-space obstacle.
    Intersection,
    /// The closest points, from the given weights, and the separating normal.
    ClosestPoints(Witnesses, Direction),
    /// The shapes are close but disjoint; the direction separates them.
    Proximity(Direction),
    /// The shapes are farther apart than the distance of interest.
    NoIntersection(Direction),
    /// The iteration cap was reached; reported as no intersection along the
    /// first axis.
    IterationCap,
}

/// What the caller does next.
#[derive(Clone, Copy, PartialEq, Eq, Structural, Debug)]
pub enum GjkAction {
    /// Query the support point along the current direction and measure the
    /// lower bound it gives; report `Bounded`.
    QuerySupport,
    /// Insert the support point in the simplex; report `Inserted`.
    AddPoint,
    /// Remember the current direction as the previous one, project the
    /// origin on the simplex and reduce it; report `Reduced`.
    Reduce,
    /// Measure the projection of the origin; report `Measured`.
    Measure,
    /// Stop with this outcome.
    Finish(GjkOutcome),
}

/// Where the iteration stands: which observation it waits for.
#[derive(Clone, Copy, PartialEq, Eq, Structural, Debug)]
pub enum GjkPhase {
    Measure,
    Bound,
    Insert,
    Check,
}

/// What the caller observed.
#[derive(Clone, Copy, PartialEq, Eq, Structural, Debug)]
pub enum GjkEvent {
    /// The projection of the origin was measured: `on_simplex` when it is
    /// shorter than the tolerance, `regressed` when its length did not
    /// decrease below the previous upper bound.
    Measured { on_simplex: bool, regressed: bool },
    /// The support point gave a lower bound: `beyond_max_dist` when it
    /// exceeds the distance of interest, `separated_within` when it is
    /// positive while the upper bound is within that distance, `converged`
    /// when the two bounds meet within the relative tolerance.
    Bounded { beyond_max_dist: bool, separated_within: bool, converged: bool },
    /// The simplex accepted the support point, or refused it as degenerate.
    Inserted { accepted: bool },
    /// The simplex was reduced: `full_dimension` when it still spans the
    /// whole space, `lower_bound_clear` when the last lower bound is at
    /// least the tolerance.
    Reduced { full_dimension: bool, lower_bound_clear: bool },
}

/// The observation that a phase waits for.
pub open spec fn accepts(phase: GjkPhase, event: GjkEvent) -> bool {
    match event {
        GjkEvent::Measured { .. } => phase == GjkPhase::Measure,
        GjkEvent::Bounded { .. } => phase == GjkPhase::Bound,
        GjkEvent::Inserted { .. } => phase == GjkPhase::Insert,
        GjkEvent::Reduced { .. } => phase == GjkPhase::Check,
    }
}

/// The phase that follows an action.
pub open spec fn phase_after(action: GjkAction) -> GjkPhase {
    match action {
        GjkAction::QuerySupport => GjkPhase::Bound,
        GjkAction::AddPoint => GjkPhase::Insert,
        GjkAction::Reduce => GjkPhase::Check,
        _ => GjkPhase::Measure,
    }
}

/// The result of a stop that keeps the current simplex: the closest points
/// in exact mode, a proximity otherwise.
pub open spec fn stop_with(exact_dist: bool, w: Witnesses, d: Direction) -> GjkOutcome {
    if exact_dist {
        GjkOutcome::ClosestPoints(w, d)
    } else {
        GjkOutcome::Proximity(d)
    }
}

/// The state of one distance search.
pub struct GjkMachine {
    exact_dist: bool,
    niter: u32,
    phase: GjkPhase,
}

impl GjkMachine {
    pub closed spec fn wf(&self) -> bool {
        self.niter < MAX_ITERATIONS
    }

    /// Whether the search computes exact closest points.
    pub closed spec fn exact(&self) -> bool {
        self.exact_dist
    }

    /// The number of completed iterations.
    pub closed spec fn iterations(&self) -> nat {
        self.niter as nat
    }

    /// The observation the search waits for.
    pub closed spec fn phase_view(&self) -> GjkPhase {
        self.phase
    }

    /// An upper bound on the number of steps left before the search stops.
    pub open spec fn steps_left(&self) -> nat {
        (4 * (MAX_ITERATIONS - 1 - self.iterations()) + match self.phase_view() {
            GjkPhase::Measure => 4int,
            GjkPhase::Bound => 3,
            GjkPhase::Insert => 2,
            GjkPhase::Check => 1,
        }) as nat
    }

    /// Starts a search, which first measures the projection of the origin on
    /// the seeded simplex. With `exact_dist` false, the search stops as soon
    /// as it can show the shapes disjoint and within the distance of
    /// interest.
    pub fn new(exact_dist: bool) -> (r: Self)
        ensures
            r.wf(),
            r.exact() == exact_dist,
            r.iterations() == 0,
            r.phase_view() == GjkPhase::Measure,
    {
        GjkMachine { exact_dist, niter: 0, phase: GjkPhase::Measure }
    }

    /// The observation the search waits for.
    pub fn phase(&self) -> (r: GjkPhase)
        ensures
            r == self.phase_view(),
    {
        self.phase
    }

    /// Takes the observation the search waited for and decides what follows.
    pub fn step(&mut self, event: GjkEvent) -> (r: GjkAction)
        requires
            old(self).wf(),
            accepts(old(self).phase_view(), event),
        ensures
            final(self).wf(),
            final(self).exact() == old(self).exact(),
            final(self).phase_view() == phase_after(r),
            !(r is Finish) ==> final(self).steps_left() < old(self).steps_left(),
            final(self).iterations() == if old(self).phase_view() == GjkPhase::Check
                && !(r is Finish) {
                old(self).iterations() + 1
            } else {
                old(self).iterations()
            },
            ({
                let exact = old(self).exact();
                match event {
                    GjkEvent::Measured { on_simplex, regressed } => r == if on_simplex {
                        GjkAction::Finish(GjkOutcome::Intersection)
                    } else if regressed {
                        GjkAction::Finish(stop_with(exact, Witnesses::Previous, Direction::Previous))
                    } else {
                        GjkAction::QuerySupport
                    },
                    GjkEvent::Bounded { beyond_max_dist, separated_within, converged } => r == if beyond_max_dist {
                        GjkAction::Finish(GjkOutcome::NoIntersection(Direction::Current))
                    } else if !exact && separated_within {
                        GjkAction::Finish(GjkOutcome::Proximity(Direction::Previous))
                    } else if converged {
                        GjkAction::Finish(stop_with(exact, Witnesses::Current, Direction::Current))
                    } else {
                        GjkAction::AddPoint
                    },
                    GjkEvent::Inserted { accepted } => r == if accepted {
                        GjkAction::Reduce
                    } else {
                        GjkAction::Finish(stop_with(exact, Witnesses::Current, Direction::Current))
                    },
                    GjkEvent::Reduced { full_dimension, lower_bound_clear } => r == if full_dimension {
                        if lower_bound_clear {
                            GjkAction::Finish(stop_with(exact, Witnesses::Previous, Direction::Previous))
                        } else {
                            GjkAction::Finish(GjkOutcome::Intersection)
                        }
                    } else if old(self).iterations() + 1 == MAX_ITERATIONS {
                        GjkAction::Finish(GjkOutcome::IterationCap)
                    } else {
                        GjkAction::Measure
                    },
                }
            }),
    {
        let exact = self.exact_dist;
        let stop_current = if exact {
            GjkOutcome::ClosestPoints(Witnesses::Current, Direction::Current)
        } else {
            GjkOutcome::Proximity(Direction::Current)
        };
        let stop_previous = if exact {
            GjkOutcome::ClosestPoints(Witnesses::Previous, Direction::Previous)
        } else {
            GjkOutcome::Proximity(Direction::Previous)
        };
        let r = match event {
            GjkEvent::Measured { on_simplex, regressed } => {
                if on_simplex {
                    GjkAction::Finish(GjkOutcome::Intersection)
                } else if regressed {
                    GjkAction::Finish(stop_previous)
                } else {
                    GjkAction::QuerySupport
                }
            },
            GjkEvent::Bounded { beyond_max_dist, separated_within, converged } => {
                if beyond_max_dist {
                    GjkAction::Finish(GjkOutcome::NoIntersection(Direction::Current))
                } else if !exact && separated_within {
                    GjkAction::Finish(GjkOutcome::Proximity(Direction::Previous))
                } else if converged {
                    GjkAction::Finish(stop_current)
                } else {
                    GjkAction::AddPoint
                }
            },
            GjkEvent::Inserted { accepted } => {
                if accepted {
                    GjkAction::Reduce
                } else {
                    GjkAction::Finish(stop_current)
                }
            },
            GjkEvent::Reduced { full_dimension, lower_bound_clear } => {
                if full_dimension {
                    if lower_bound_clear {
                        GjkAction::Finish(stop_previous)
                    } else {
                        GjkAction::Finish(GjkOutcome::Intersection)
                    }
                } else if self.niter + 1 == MAX_ITERATIONS {
                    GjkAction::Finish(GjkOutcome::IterationCap)
                } else {
                    self.niter = self.niter + 1;
                    GjkAction::Measure
                }
            },
        };
        self.phase = match r {
            GjkAction::QuerySupport => GjkPhase::Bound,
            GjkAction::AddPoint => GjkPhase::Insert,
            GjkAction::Reduce => GjkPhase::Check,
            _ => GjkPhase::Measure,
        };
        r
    }
}

/// The terms of the barycentric combination that gives the witness points:
/// each vertex of the simplex (now, or before the last insertion) with its
/// weight. The closest point on each shape is the weighted sum of the
/// matching support points.
pub fn result<P: Copy, C: Copy>(simplex: &VoronoiSimplex<P, C>, prev: bool) -> (r: Vec<(P, C)>)
    requires
        simplex.wf(),
        !prev ==> simplex.dim_view() < 3,
    ensures
        prev ==> r@ == Seq::new(
            simplex.prev_dim_view() + 1,
            |i: int| (simplex.prev_points()[i], simplex.prev_weights()[i]),
        ),
        !prev ==> r@ == Seq::new(
            simplex.dim_view() + 1,
            |i: int| (simplex.points()[i], simplex.weights()[i]),
        ),
{
    let mut terms: Vec<(P, C)> = Vec::new();
    let n = if prev {
        simplex.prev_dimension() + 1
    } else {
        simplex.dimension() + 1
    };
    let mut i: usize = 0;
    while i < n
        invariant
            simplex.wf(),
            !prev ==> simplex.dim_view() < 3,
            n == if prev {
                simplex.prev_dim_view() + 1
            } else {
                simplex.dim_view() + 1
            },
            i <= n,
            prev ==> terms@ == Seq::new(
                i as nat,
                |k: int| (simplex.prev_points()[k], simplex.prev_weights()[k]),
            ),
            !prev ==> terms@ == Seq::new(
                i as nat,
                |k: int| (simplex.points()[k], simplex.weights()[k]),
            ),
        decreases n - i,
    {
        if prev {
            terms.push((*simplex.prev_point(i), simplex.prev_proj_coord(i)));
        } else {
            terms.push((*simplex.point(i), simplex.proj_coord(i)));
        }
        i = i + 1;
        proof {
            if prev {
                assert(terms@ =~= Seq::new(
                    i as nat,
                    |k: int| (simplex.prev_points()[k], simplex.prev_weights()[k]),
                ));
            } else {
                assert(terms@ =~= Seq::new(
                    i as nat,
                    |k: int| (simplex.points()[k], simplex.weights()[k]),
                ));
            }
        }
    }
    proof {
        if prev {
            assert(terms@ =~= Seq::new(
                simplex.prev_dim_view() + 1,
                |k: int| (simplex.prev_points()[k], simplex.prev_weights()[k]),
            ));
        } else {
            assert(terms@ =~= Seq::new(
                simplex.dim_view() + 1,
                |k: int| (simplex.points()[k], simplex.weights()[k]),
            ));
        }
    }
    terms
}

} // verus!
