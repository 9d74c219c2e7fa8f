use parry_query::{visit_leaves, LeafVisit};

fn dist_of(table: &'static [Option<f64>]) -> impl Fn(usize) -> Option<f64> {
    move |id: usize| table[id]
}

#[test]
fn leaf_lanes_keep_distances_and_mask_closer_parts() {
    static TABLE: [Option<f64>; 4] = [Some(3.0), Some(1.0), None, Some(0.5)];
    let best = 2.0;
    let r = visit_leaves(
        [true, true, true, false],
        [Some(0), Some(1), Some(2), Some(3)],
        0.0,
        &dist_of(&TABLE),
        &|d: f64| d == 0.0,
        &|d: f64| d < best,
    );
    match r {
        LeafVisit::MaybeContinue { weights, mask, results } => {
            assert_eq!(weights, [3.0, 1.0, 0.0, 0.0]);
            assert_eq!(mask, [false, true, false, false]);
            assert_eq!(results, [Some((0, 3.0)), Some((1, 1.0)), None, None]);
        }
        LeafVisit::ExitEarly(..) => panic!("no part touches"),
    }
}

#[test]
fn touching_part_ends_the_search() {
    static TABLE: [Option<f64>; 3] = [Some(4.0), Some(0.0), Some(0.0)];
    let r = visit_leaves(
        [true, true, true, true],
        [Some(0), None, Some(1), Some(2)],
        0.0,
        &dist_of(&TABLE),
        &|d: f64| d == 0.0,
        &|d: f64| d < 10.0,
    );
    match r {
        LeafVisit::ExitEarly(id, d) => assert_eq!((id, d), (1, 0.0)),
        LeafVisit::MaybeContinue { .. } => panic!("part 1 touches"),
    }
}

#[test]
fn second_disc_is_closest_to_far_point() {
    // Two unit discs at x = 0 and x = 10, a point at x = 12: the parts are
    // at distances 11 and 1.
    let centers = [0.0f64, 10.0];
    let dist = |id: usize| Some((12.0 - centers[id]).abs() - 1.0);
    let r = visit_leaves(
        [true, true, false, false],
        [Some(0), Some(1), None, None],
        0.0,
        &dist,
        &|d: f64| d == 0.0,
        &|d: f64| d < f64::MAX,
    );
    match r {
        LeafVisit::MaybeContinue { weights, results, .. } => {
            assert_eq!(weights[1], 1.0);
            assert_eq!(results[1], Some((1, 1.0)));
            assert_eq!(weights[0], 11.0);
        }
        LeafVisit::ExitEarly(..) => panic!("no part touches"),
    }
}
