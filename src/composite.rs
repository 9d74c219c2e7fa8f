//! The leaf step of the best-first search for the part of a composite shape
//! closest to another shape.
use vstd::prelude::*;

verus! {

/// The number of children that a node of the bounding-volume tree visits at
/// once.
pub const SIMD_WIDTH: usize = 4;

/// What a visit of a leaf bundle reports to the best-first traversal.
pub enum LeafVisit<Id, D> {
    /// A part touches the other shape: the search is over, at distance zero.
    ExitEarly(Id, D),
    /// Per lane: the weight (the part's distance), whether the lane is still
    /// worth visiting (closer than the best so far), and the payload.
    MaybeContinue { weights: [D; 4], mask: [bool; 4], results: [Option<(Id, D)>; 4] },
}

/// What a visit leaves in a lane that did not end the search: nothing for a
/// lane that is not live or whose part could not be measured; otherwise the
/// part's (non-zero) distance as weight and in the payload, and the mask bit
/// that `below_best` gave for it.
pub open spec fn lane_result<Id, D, F: Fn(Id) -> Option<D>, Z: Fn(D) -> bool, B: Fn(D) -> bool>(
    candidate: bool,
    data: Option<Id>,
    zero: D,
    distance: F,
    is_zero: Z,
    below_best: B,
    weight: D,
    mask: bool,
    result: Option<(Id, D)>,
) -> bool {
    ||| !(candidate && data is Some) && weight == zero && !mask && result is None
    ||| candidate && data is Some && distance.ensures((data->Some_0,), None) && weight == zero
        && !mask && result is None
    ||| candidate && data is Some && {
        &&& distance.ensures((data->Some_0,), Some(weight))
        &&& is_zero.ensures((weight,), false)
        &&& below_best.ensures((weight,), mask)
        &&& result == Some((data->Some_0, weight))
    }
}

/// A lane that the visit went past without ending the search: not live,
/// or its part could not be measured, or it is not at distance zero.
pub open spec fn lane_passes<Id, D, F: Fn(Id) -> Option<D>, Z: Fn(D) -> bool>(
    candidate: bool,
    data: Option<Id>,
    distance: F,
    is_zero: Z,
) -> bool {
    ||| !(candidate && data is Some)
    ||| distance.ensures((data->Some_0,), None)
    ||| exists|d: D| distance.ensures((data->Some_0,), Some(d)) && is_zero.ensures((d,), false)
}

fn visit_lane<Id: Copy, D: Copy, F: Fn(Id) -> Option<D>, Z: Fn(D) -> bool, B: Fn(D) -> bool>(
    candidate: bool,
    data: Option<Id>,
    zero: D,
    distance: &F,
    is_zero: &Z,
    below_best: &B,
) -> (r: Result<(D, bool, Option<(Id, D)>), (Id, D)>)
    requires
        forall|id: Id| distance.requires((id,)),
        forall|d: D| is_zero.requires((d,)),
        forall|d: D| below_best.requires((d,)),
    ensures
        match r {
            Ok((w, m, res)) => lane_result(
                candidate,
                data,
                zero,
                *distance,
                *is_zero,
                *below_best,
                w,
                m,
                res,
            ),
            Err((id, d)) => data == Some(id) && candidate && distance.ensures((id,), Some(d))
                && is_zero.ensures((d,), true),
        },
{
    if candidate {
        if let Some(part_id) = data {
            if let Some(dist) = distance(part_id) {
                if is_zero(dist) {
                    return Err((part_id, dist));
                } else {
                    let m = below_best(dist);
                    return Ok((dist, m, Some((part_id, dist))));
                }
            }
        }
    }
    Ok((zero, false, None))
}

/// Visits the parts of a leaf bundle: for each live lane, in order, measures
/// the part's distance to the other shape with `distance`. A part at
/// distance zero (as `is_zero` says) ends the search at once. Otherwise the
/// lane's weight is the distance, its mask bit tells whether the distance is
/// below the best so far (as `below_best` says), and its payload is the part
/// with its distance. A lane that is not live, or whose part could not be
/// measured, keeps weight `zero`, mask off and no payload.
pub fn visit_leaves<Id: Copy, D: Copy, F: Fn(Id) -> Option<D>, Z: Fn(D) -> bool, B: Fn(D) -> bool>(
    candidates: [bool; 4],
    data: [Option<Id>; 4],
    zero: D,
    distance: &F,
    is_zero: &Z,
    below_best: &B,
) -> (r: LeafVisit<Id, D>)
    requires
        forall|id: Id| distance.requires((id,)),
        forall|d: D| is_zero.requires((d,)),
        forall|d: D| below_best.requires((d,)),
    ensures
        match r {
            LeafVisit::ExitEarly(id, d) => exists|ii: int|
                0 <= ii < 4 && data[ii] == Some(id) && candidates[ii] && distance.ensures(
                    (id,),
                    Some(d),
                ) && is_zero.ensures((d,), true) && forall|jj: int|
                    0 <= jj < ii ==> lane_passes(candidates[jj], data[jj], *distance, *is_zero),
            LeafVisit::MaybeContinue { weights, mask, results } => forall|ii: int|
                0 <= ii < 4 ==> lane_result(
                    candidates[ii],
                    data[ii],
                    zero,
                    *distance,
                    *is_zero,
                    *below_best,
                    weights[ii],
                    mask[ii],
                    results[ii],
                ),
        },
{
    let mut weights: [D; 4] = [zero, zero, zero, zero];
    let mut mask: [bool; 4] = [false, false, false, false];
    let mut results: [Option<(Id, D)>; 4] = [None, None, None, None];
    let mut ii: usize = 0;
    while ii < SIMD_WIDTH
        invariant
            ii <= 4,
            forall|id: Id| distance.requires((id,)),
            forall|d: D| is_zero.requires((d,)),
            forall|d: D| below_best.requires((d,)),
            forall|k: int|
                0 <= k < ii ==> #[trigger] lane_result(
                    candidates[k],
                    data[k],
                    zero,
                    *distance,
                    *is_zero,
                    *below_best,
                    weights[k],
                    mask[k],
                    results[k],
                ),
            forall|k: int|
                0 <= k < ii ==> #[trigger] lane_passes(candidates[k], data[k], *distance, *is_zero),
        decreases 4 - ii,
    {
        match visit_lane(candidates[ii], data[ii], zero, distance, is_zero, below_best) {
            Ok((w, m, res)) => {
                let ghost (w0, m0, r0) = (weights, mask, results);
                weights[ii] = w;
                mask[ii] = m;
                results[ii] = res;
                assert(weights@ == w0@.update(ii as int, w));
                assert(mask@ == m0@.update(ii as int, m));
                assert(results@ == r0@.update(ii as int, res));
                assert(lane_passes(candidates[ii as int], data[ii as int], *distance, *is_zero)) by {
                    if candidates[ii as int] && data[ii as int] is Some && !distance.ensures(
                        (data[ii as int]->Some_0,),
                        None,
                    ) {
                        assert(distance.ensures((data[ii as int]->Some_0,), Some(w))
                            && is_zero.ensures((w,), false));
                    }
                }
            },
            Err((id, d)) => {
                return LeafVisit::ExitEarly(id, d);
            },
        }
        ii = ii + 1;
    }
    LeafVisit::MaybeContinue { weights, mask, results }
}

} // verus!
