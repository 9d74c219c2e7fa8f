//! The decisions of the separating-axis ray cast on a configuration-space
//! obstacle (the Minkowski difference of two shapes).
//!
//! The caller owns the geometry: the moving ray origin, the time of impact
//! found so far, the simplex and the support queries. It reports what it
//! observed and `RayCastMachine::step` answers with what to do next.
use vstd::prelude::*;

use crate::gjk::MAX_ITERATIONS;

verus! {

/// Where the support half-space `dir . x >= dir . s` stops the current ray:
/// behind its origin (the clip parameter is negative), at its origin, or
/// ahead of it.
#[derive(Clone, Copy, PartialEq, Eq, Structural, Debug)]
pub enum Clip {
    Behind,
    AtOrigin,
    Ahead,
}

/// How the cast ended.
#[derive(Clone, Copy, PartialEq, Eq, Structural, Debug)]
pub enum RayOutcome {
    /// The ray hits at the time of impact found so far, with the last
    /// separating direction as normal.
    Hit,
    /// The ray misses, or hits beyond the largest time of interest.
    Miss,
}

/// What the caller does next.
#[derive(Clone, Copy, PartialEq, Eq, Structural, Debug)]
pub enum RayAction {
    /// Take a support point along the current direction (the projection of
    /// the origin itself when `use_projection`) and clip the ray on its
    /// half-space; report `Clipped`.
    QuerySupport { use_projection: bool },
    /// Add the clip parameter to the time of impact and compare it with the
    /// largest time of interest; report `Advanced`. If not beyond, move the
    /// ray origin and the simplex by the same shift and forget the upper
    /// bound.
    Advance,
    /// Measure the lower bound that the support point gives; report
    /// `Bounded`.
    MeasureBound,
    /// Insert the support point, seen from the ray origin, into the simplex,
    /// then project the origin and reduce; report `Reduced`.
    InsertAndReduce,
    /// Measure the projection of the origin; report `Measured`.
    Measure,
    /// Stop with this outcome.
    Finish(RayOutcome),
}

/// The observation the cast waits for.
#[derive(Clone, Copy, PartialEq, Eq, Structural, Debug)]
pub enum RayPhase {
    Measure,
    Clip,
    Advance,
    Bound,
    Check,
}

/// What the caller observed.
#[derive(Clone, Copy, PartialEq, Eq, Structural, Debug)]
pub enum RayEvent {
    /// `on_simplex` when the projection is shorter than the tolerance;
    /// `regressed` when its length did not fall below the upper bound.
    Measured { on_simplex: bool, regressed: bool },
    /// `approaching` when the direction points against the ray
    /// (`dir . ray_dir < 0`), `receding` when it points along it by more
    /// than the tolerance, and where the half-space clips the ray.
    Clipped { approaching: bool, receding: bool, clip: Clip },
    /// Whether the advanced time of impact exceeds the largest one of
    /// interest.
    Advanced { beyond_max_toi: bool },
    /// Whether the bounds met within the relative tolerance.
    Bounded { converged: bool },
    /// `full_dimension` when the reduced simplex still spans the space,
    /// `lower_bound_clear` when the last lower bound is at least the
    /// tolerance.
    Reduced { full_dimension: bool, lower_bound_clear: bool },
}

/// The observation that a phase waits for.
pub open spec fn ray_accepts(phase: RayPhase, event: RayEvent) -> bool {
    match event {
        RayEvent::Measured { .. } => phase == RayPhase::Measure,
        RayEvent::Clipped { .. } => phase == RayPhase::Clip,
        RayEvent::Advanced { .. } => phase == RayPhase::Advance,
        RayEvent::Bounded { .. } => phase == RayPhase::Bound,
        RayEvent::Reduced { .. } => phase == RayPhase::Check,
    }
}

/// The phase that follows an action.
pub open spec fn ray_phase_after(action: RayAction) -> RayPhase {
    match action {
        RayAction::QuerySupport { .. } => RayPhase::Clip,
        RayAction::Advance => RayPhase::Advance,
        RayAction::MeasureBound => RayPhase::Bound,
        RayAction::InsertAndReduce => RayPhase::Check,
        _ => RayPhase::Measure,
    }
}

/// The state of one ray cast.
pub struct RayCastMachine {
    niter: u32,
    phase: RayPhase,
    last_chance: bool,
    advanced: bool,
}

impl RayCastMachine {
    pub closed spec fn wf(&self) -> bool {
        &&& self.niter < MAX_ITERATIONS
        &&& self.phase != RayPhase::Clip && self.phase != RayPhase::Advance ==> !self.last_chance
    }

    /// The number of completed iterations.
    pub closed spec fn iterations(&self) -> nat {
        self.niter as nat
    }

    /// The observation the cast waits for.
    pub closed spec fn phase_view(&self) -> RayPhase {
        self.phase
    }

    /// Whether the current support point is the projection itself, taken
    /// because the upper bound stopped decreasing.
    pub closed spec fn on_last_chance(&self) -> bool {
        self.last_chance
    }

    /// Whether the ray origin has moved forward: the time of impact found
    /// so far is positive.
    pub closed spec fn has_advanced(&self) -> bool {
        self.advanced
    }

    /// An upper bound on the number of steps left before the cast stops.
    pub open spec fn steps_left(&self) -> nat {
        (5 * (MAX_ITERATIONS - 1 - self.iterations()) + match self.phase_view() {
            RayPhase::Measure => 5int,
            RayPhase::Clip => 4,
            RayPhase::Advance => 3,
            RayPhase::Bound => 2,
            RayPhase::Check => 1,
        }) as nat
    }

    /// Starts a cast whose simplex the caller seeded with the support point
    /// against the ray direction, seen from the ray origin, and reduced.
    pub fn new() -> (r: Self)
        ensures
            r.wf(),
            r.iterations() == 0,
            r.phase_view() == RayPhase::Measure,
            !r.on_last_chance(),
            !r.has_advanced(),
    {
        RayCastMachine { niter: 0, phase: RayPhase::Measure, last_chance: false, advanced: false }
    }

    /// The observation the cast waits for.
    pub fn phase(&self) -> (r: RayPhase)
        ensures
            r == self.phase_view(),
    {
        self.phase
    }

    /// Takes the observation the cast waited for and decides what follows.
    ///
    /// The clip follows this table (`d` the direction, `t` the clip
    /// parameter): `d . ray < 0, t < 0`: go on; `d . ray < 0, t > 0`: advance
    /// the ray; `d . ray > 0, t < 0`: miss; `d . ray > 0, t > 0`: go on with
    /// a new upper bound.
    pub fn step(&mut self, event: RayEvent) -> (r: RayAction)
        requires
            old(self).wf(),
            ray_accepts(old(self).phase_view(), event),
        ensures
            final(self).wf(),
            final(self).phase_view() == ray_phase_after(r),
            !(r is Finish) ==> final(self).steps_left() < old(self).steps_left(),
            final(self).iterations() == if old(self).phase_view() == RayPhase::Check
                && !(r is Finish) {
                old(self).iterations() + 1
            } else {
                old(self).iterations()
            },
            final(self).has_advanced() == (old(self).has_advanced() || event == (RayEvent::Advanced {
                beyond_max_toi: false,
            })),
            match event {
                RayEvent::Measured { on_simplex, regressed } => {
                    &&& r == if on_simplex {
                        RayAction::Finish(RayOutcome::Hit)
                    } else if regressed && old(self).has_advanced() {
                        RayAction::Finish(RayOutcome::Hit)
                    } else {
                        RayAction::QuerySupport { use_projection: regressed }
                    }
                    &&& !(r is Finish) ==> final(self).on_last_chance() == regressed
                },
                RayEvent::Clipped { approaching, receding, clip } => r == if approaching && clip
                    == Clip::Ahead {
                    RayAction::Advance
                } else if clip == Clip::Behind && receding {
                    RayAction::Finish(RayOutcome::Miss)
                } else if old(self).on_last_chance() {
                    RayAction::Finish(RayOutcome::Miss)
                } else {
                    RayAction::MeasureBound
                },
                RayEvent::Advanced { beyond_max_toi } => {
                    &&& r == if beyond_max_toi {
                        RayAction::Finish(RayOutcome::Miss)
                    } else {
                        RayAction::MeasureBound
                    }
                    &&& !final(self).on_last_chance()
                },
                RayEvent::Bounded { converged } => r == if converged {
                    RayAction::Finish(RayOutcome::Miss)
                } else {
                    RayAction::InsertAndReduce
                },
                RayEvent::Reduced { full_dimension, lower_bound_clear } => r == if full_dimension {
                    if lower_bound_clear {
                        RayAction::Finish(RayOutcome::Miss)
                    } else {
                        RayAction::Finish(RayOutcome::Hit)
                    }
                } else if old(self).iterations() + 1 == MAX_ITERATIONS {
                    RayAction::Finish(RayOutcome::Miss)
                } else {
                    RayAction::Measure
                },
            },
    {
        let r = match event {
            RayEvent::Measured { on_simplex, regressed } => {
                if on_simplex {
                    RayAction::Finish(RayOutcome::Hit)
                } else if regressed && self.advanced {
                    RayAction::Finish(RayOutcome::Hit)
                } else {
                    self.last_chance = regressed;
                    RayAction::QuerySupport { use_projection: regressed }
                }
            },
            RayEvent::Clipped { approaching, receding, clip } => {
                if approaching && clip == Clip::Ahead {
                    RayAction::Advance
                } else if clip == Clip::Behind && receding {
                    RayAction::Finish(RayOutcome::Miss)
                } else if self.last_chance {
                    RayAction::Finish(RayOutcome::Miss)
                } else {
                    RayAction::MeasureBound
                }
            },
            RayEvent::Advanced { beyond_max_toi } => {
                if beyond_max_toi {
                    RayAction::Finish(RayOutcome::Miss)
                } else {
                    self.advanced = true;
                    self.last_chance = false;
                    RayAction::MeasureBound
                }
            },
            RayEvent::Bounded { converged } => {
                if converged {
                    RayAction::Finish(RayOutcome::Miss)
                } else {
                    RayAction::InsertAndReduce
                }
            },
            RayEvent::Reduced { full_dimension, lower_bound_clear } => {
                if full_dimension {
                    if lower_bound_clear {
                        RayAction::Finish(RayOutcome::Miss)
                    } else {
                        RayAction::Finish(RayOutcome::Hit)
                    }
                } else if self.niter + 1 == MAX_ITERATIONS {
                    RayAction::Finish(RayOutcome::Miss)
                } else {
                    self.niter = self.niter + 1;
                    RayAction::Measure
                }
            },
        };
        self.phase = match r {
            RayAction::QuerySupport { .. } => RayPhase::Clip,
            RayAction::Advance => RayPhase::Advance,
            RayAction::MeasureBound => RayPhase::Bound,
            RayAction::InsertAndReduce => RayPhase::Check,
            _ => RayPhase::Measure,
        };
        if let RayAction::Finish(_) = r {
            self.last_chance = false;
        }
        r
    }
}

} // verus!
