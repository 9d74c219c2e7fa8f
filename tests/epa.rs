use parry_query::{EpaAction, EpaEvent, EpaMachine, EpaOutcome, EpaPhase};

fn seed_face(inside: bool, key_ok: bool) -> EpaEvent {
    EpaEvent::SeedFace { inside, key_ok }
}

fn supported(improves: bool, converged: bool, stalled: bool) -> EpaEvent {
    EpaEvent::Supported { improves, converged, stalled }
}

fn new_face(face: usize, inside: bool, below_current: bool, deleted: bool) -> EpaEvent {
    EpaEvent::NewFace { face, inside, below_current, deleted, key_ok: true }
}

// A triangle seed whose three faces all hold the projection.
fn seeded_triangle() -> EpaMachine {
    let mut m = EpaMachine::new();
    assert_eq!(m.step(EpaEvent::Seeded { dim: 2, clockwise: false }), EpaAction::Proceed);
    assert_eq!(m.phase(), EpaPhase::Seed);
    for k in 0..3 {
        assert_eq!(m.face_index(), k);
        assert_eq!(m.step(seed_face(true, true)), EpaAction::PushFace(k));
    }
    assert_eq!(m.phase(), EpaPhase::Pop);
    m
}

#[test]
fn single_point_seed_is_vertex_contact() {
    let mut m = EpaMachine::new();
    assert_eq!(
        m.step(EpaEvent::Seeded { dim: 0, clockwise: false }),
        EpaAction::Finish(EpaOutcome::VertexContact)
    );
    assert_eq!(m.phase(), EpaPhase::Done);
}

#[test]
fn clockwise_triangle_is_flipped() {
    let mut m = EpaMachine::new();
    assert_eq!(m.step(EpaEvent::Seeded { dim: 2, clockwise: true }), EpaAction::Flip);
    assert_eq!(m.phase(), EpaPhase::Seed);
}

#[test]
fn seed_without_projection_fails() {
    let mut m = EpaMachine::new();
    m.step(EpaEvent::Seeded { dim: 2, clockwise: false });
    assert_eq!(m.step(seed_face(false, true)), EpaAction::Proceed);
    assert_eq!(m.step(seed_face(false, true)), EpaAction::Proceed);
    assert_eq!(m.step(seed_face(false, true)), EpaAction::Finish(EpaOutcome::Failed));
}

#[test]
fn refused_seed_key_fails() {
    let mut m = EpaMachine::new();
    m.step(EpaEvent::Seeded { dim: 1, clockwise: false });
    assert_eq!(m.step(seed_face(true, true)), EpaAction::PushFace(0));
    assert_eq!(m.step(seed_face(true, false)), EpaAction::Finish(EpaOutcome::Failed));
}

#[test]
fn segment_seed_has_two_faces() {
    let mut m = EpaMachine::new();
    m.step(EpaEvent::Seeded { dim: 1, clockwise: false });
    assert_eq!(m.step(seed_face(true, true)), EpaAction::PushFace(0));
    assert_eq!(m.step(seed_face(true, true)), EpaAction::PushFace(1));
    assert_eq!(m.phase(), EpaPhase::Pop);
}

#[test]
fn convergence_reports_best_face() {
    let mut m = seeded_triangle();
    assert_eq!(m.step(EpaEvent::Popped { face: 1, deleted: false }), EpaAction::Proceed);
    assert_eq!(m.current_face(), 1);
    assert_eq!(m.step(supported(true, false, false)), EpaAction::SplitFace(1));
    assert_eq!(m.step(new_face(3, true, false, false)), EpaAction::PushFace(3));
    assert_eq!(m.step(new_face(4, false, false, false)), EpaAction::Proceed);
    assert_eq!(m.phase(), EpaPhase::Pop);
    m.step(EpaEvent::Popped { face: 3, deleted: false });
    // Face 3 does not improve on face 1, and the bounds meet.
    assert_eq!(m.step(supported(false, true, false)), EpaAction::Finish(EpaOutcome::Face(1)));
}

#[test]
fn stall_reports_improving_face() {
    let mut m = seeded_triangle();
    m.step(EpaEvent::Popped { face: 2, deleted: false });
    assert_eq!(m.step(supported(true, false, true)), EpaAction::Finish(EpaOutcome::Face(2)));
}

#[test]
fn deleted_face_is_skipped_and_first_pop_is_best() {
    let mut m = seeded_triangle();
    assert_eq!(m.step(EpaEvent::Popped { face: 0, deleted: true }), EpaAction::Proceed);
    assert_eq!(m.phase(), EpaPhase::Pop);
    m.step(EpaEvent::Popped { face: 1, deleted: false });
    assert_eq!(m.step(supported(false, true, false)), EpaAction::Finish(EpaOutcome::Face(0)));
}

#[test]
fn new_face_below_current_ends_search() {
    let mut m = seeded_triangle();
    m.step(EpaEvent::Popped { face: 0, deleted: false });
    m.step(supported(true, false, false));
    assert_eq!(m.step(new_face(3, true, true, false)), EpaAction::Finish(EpaOutcome::Face(3)));
}

#[test]
fn refused_new_face_key_fails() {
    let mut m = seeded_triangle();
    m.step(EpaEvent::Popped { face: 0, deleted: false });
    m.step(supported(true, false, false));
    assert_eq!(
        m.step(EpaEvent::NewFace { face: 3, inside: true, below_current: false, deleted: false, key_ok: false }),
        EpaAction::Finish(EpaOutcome::Failed)
    );
}

#[test]
fn empty_queue_ends_with_best_face() {
    let mut m = EpaMachine::new();
    m.step(EpaEvent::Seeded { dim: 2, clockwise: false });
    m.step(seed_face(true, true));
    m.step(seed_face(false, true));
    m.step(seed_face(false, true));
    m.step(EpaEvent::Popped { face: 0, deleted: false });
    m.step(supported(true, false, false));
    assert_eq!(m.step(new_face(3, false, false, false)), EpaAction::Proceed);
    assert_eq!(m.step(new_face(4, true, false, true)), EpaAction::Finish(EpaOutcome::Face(0)));
}

#[test]
fn search_stops_after_101_splits() {
    let mut m = seeded_triangle();
    let mut face = 3;
    for split in 0..101 {
        m.step(EpaEvent::Popped { face: face - 1, deleted: false });
        assert_eq!(m.step(supported(split == 0, false, false)), EpaAction::SplitFace(face - 1));
        assert_eq!(m.step(new_face(face, true, false, false)), EpaAction::PushFace(face));
        let last = m.step(new_face(face + 1, true, false, false));
        if split < 100 {
            assert_eq!(last, EpaAction::PushFace(face + 1));
        } else {
            assert_eq!(last, EpaAction::Finish(EpaOutcome::Face(2)));
        }
        face += 2;
    }
}
