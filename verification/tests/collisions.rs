use platformer::physics::handle_kinematic_collisions::{
    contact_subject, manifold_response, ContactSubject, ManifoldResponse,
};
use platformer::physics::BodyKind;

#[test]
fn first_object_is_preferred() {
    assert_eq!(
        contact_subject(true, true, Some(BodyKind::Kinematic), Some(BodyKind::Kinematic)),
        Some(ContactSubject { is_first: true, other_is_dynamic: false })
    );
}

#[test]
fn second_object_when_first_is_not() {
    assert_eq!(
        contact_subject(false, true, Some(BodyKind::Dynamic), Some(BodyKind::Kinematic)),
        Some(ContactSubject { is_first: false, other_is_dynamic: true })
    );
    assert_eq!(
        contact_subject(false, true, None, Some(BodyKind::Kinematic)),
        Some(ContactSubject { is_first: false, other_is_dynamic: false })
    );
}

#[test]
fn first_object_against_dynamic() {
    assert_eq!(
        contact_subject(true, false, Some(BodyKind::Kinematic), Some(BodyKind::Dynamic)),
        Some(ContactSubject { is_first: true, other_is_dynamic: true })
    );
    assert_eq!(
        contact_subject(true, false, Some(BodyKind::Kinematic), Some(BodyKind::Static)),
        Some(ContactSubject { is_first: true, other_is_dynamic: false })
    );
}

#[test]
fn no_object_no_subject() {
    assert_eq!(contact_subject(false, false, Some(BodyKind::Kinematic), Some(BodyKind::Kinematic)), None);
    assert_eq!(contact_subject(false, false, None, None), None);
}

#[test]
fn non_kinematic_object_is_skipped() {
    assert_eq!(contact_subject(true, true, Some(BodyKind::Dynamic), Some(BodyKind::Kinematic)), None);
    assert_eq!(contact_subject(false, true, Some(BodyKind::Kinematic), Some(BodyKind::Static)), None);
}

#[test]
fn dynamic_other_leaves_velocity() {
    for penetrating in [false, true] {
        for climbable in [false, true] {
            for moving_away in [false, true] {
                assert_eq!(
                    manifold_response(true, penetrating, climbable, moving_away),
                    ManifoldResponse::Unchanged
                );
            }
        }
    }
}

#[test]
fn penetrating_responses() {
    assert_eq!(manifold_response(false, true, true, false), ManifoldResponse::SnapToSlope);
    assert_eq!(manifold_response(false, true, true, true), ManifoldResponse::SnapToSlope);
    assert_eq!(manifold_response(false, true, false, false), ManifoldResponse::SlideAlongSurface);
    assert_eq!(manifold_response(false, true, false, true), ManifoldResponse::Unchanged);
}

#[test]
fn speculative_responses() {
    assert_eq!(manifold_response(false, false, true, false), ManifoldResponse::StopSlidingDown);
    assert_eq!(manifold_response(false, false, false, false), ManifoldResponse::StopClimbing);
    assert_eq!(manifold_response(false, false, true, true), ManifoldResponse::Unchanged);
    assert_eq!(manifold_response(false, false, false, true), ManifoldResponse::Unchanged);
}
