use vstd::prelude::*;

use crate::physics::BodyKind;

verus! {

/// Which side of a contact pair is the game-handled kinematic object, and
/// whether the body on the other side is dynamic.
#[derive(Clone, Copy, Debug, PartialEq, Eq, Structural)]
pub struct ContactSubject {
    /// The object is the first body of the pair; its contact normals point
    /// away from it, so they are negated before use.
    pub is_first: bool,
    /// The other body is dynamic: only the position is corrected then.
    pub other_is_dynamic: bool,
}

/// The pair is handled from the first body when that body is a physics
/// object, else from the second when that one is; and only when the chosen
/// body is kinematic.
pub open spec fn spec_contact_subject(
    first_is_object: bool,
    second_is_object: bool,
    first_body: Option<BodyKind>,
    second_body: Option<BodyKind>,
) -> Option<ContactSubject> {
    if first_is_object {
        if first_body == Some(BodyKind::Kinematic) {
            Some(ContactSubject { is_first: true, other_is_dynamic: second_body == Some(BodyKind::Dynamic) })
        } else {
            None
        }
    } else if second_is_object {
        if second_body == Some(BodyKind::Kinematic) {
            Some(ContactSubject { is_first: false, other_is_dynamic: first_body == Some(BodyKind::Dynamic) })
        } else {
            None
        }
    } else {
        None
    }
}

fn is_kind(body: Option<BodyKind>, kind: BodyKind) -> (r: bool)
    ensures
        r == (body == Some(kind)),
{
    match body {
        Some(k) => k == kind,
        None => false,
    }
}

/// Picks the body whose collision the game resolves for a pair of touching
/// colliders.
///
/// `first_is_object` and `second_is_object` say whether each body is a
/// physics object; `first_body` and `second_body` are the bodies' kinds,
/// `None` for an entity without a rigid body. A physics object always has
/// a rigid body. `None` is returned when the pair is not handled: neither
/// body is a physics object, or the chosen one is not kinematic.
pub fn contact_subject(
    first_is_object: bool,
    second_is_object: bool,
    first_body: Option<BodyKind>,
    second_body: Option<BodyKind>,
) -> (subject: Option<ContactSubject>)
    requires
        first_is_object ==> first_body is Some,
        second_is_object ==> second_body is Some,
    ensures
        subject == spec_contact_subject(first_is_object, second_is_object, first_body, second_body),
        subject is Some <==> ((first_is_object && first_body == Some(BodyKind::Kinematic)) || (
        !first_is_object && second_is_object && second_body == Some(BodyKind::Kinematic))),
        // The subject names the physics object: the first body when it is
        // one, the second body only when the first is not.
        subject matches Some(s) ==> s.is_first == first_is_object,
        // The other body is the one not chosen, and it counts as dynamic
        // exactly when its kind is dynamic.
        subject matches Some(s) ==> s.other_is_dynamic == (if first_is_object {
            second_body == Some(BodyKind::Dynamic)
        } else {
            first_body == Some(BodyKind::Dynamic)
        }),
{
    if first_is_object {
        if is_kind(first_body, BodyKind::Kinematic) {
            Some(ContactSubject { is_first: true, other_is_dynamic: is_kind(second_body, BodyKind::Dynamic) })
        } else {
            None
        }
    } else if second_is_object {
        if is_kind(second_body, BodyKind::Kinematic) {
            Some(ContactSubject { is_first: false, other_is_dynamic: is_kind(first_body, BodyKind::Dynamic) })
        } else {
            None
        }
    } else {
        None
    }
}

/// How a kinematic character's velocity is corrected for one contact
/// manifold, after its position has been pushed out of the surface.
#[derive(Clone, Copy, Debug, PartialEq, Eq, Structural)]
pub enum ManifoldResponse {
    /// The velocity is left as it is.
    Unchanged,
    /// Penetrating a climbable slope: the vertical speed is raised to
    /// follow the slope.
    SnapToSlope,
    /// Penetrating a wall while moving into it: the velocity loses its
    /// component along the contact normal.
    SlideAlongSurface,
    /// About to touch a climbable slope: the downward part of the
    /// approaching impulse is removed, so the character does not slide down.
    StopSlidingDown,
    /// About to touch a wall: the approaching impulse is removed from the
    /// velocity, without its upward part, so the character does not climb.
    StopClimbing,
}

/// The correction for one manifold, given whether the other body is
/// dynamic, whether the deepest contact point penetrates, whether the
/// surface is climbable, and whether the character moves away from it
/// (its velocity has a positive component along the contact normal).
pub open spec fn spec_manifold_response(
    other_is_dynamic: bool,
    penetrating: bool,
    climbable: bool,
    moving_away: bool,
) -> ManifoldResponse {
    if other_is_dynamic {
        ManifoldResponse::Unchanged
    } else if penetrating {
        if climbable {
            ManifoldResponse::SnapToSlope
        } else if moving_away {
            ManifoldResponse::Unchanged
        } else {
            ManifoldResponse::SlideAlongSurface
        }
    } else if moving_away {
        ManifoldResponse::Unchanged
    } else if climbable {
        ManifoldResponse::StopSlidingDown
    } else {
        ManifoldResponse::StopClimbing
    }
}

/// Decides the velocity correction of a kinematic character for one
/// contact manifold.
pub fn manifold_response(
    other_is_dynamic: bool,
    penetrating: bool,
    climbable: bool,
    moving_away: bool,
) -> (response: ManifoldResponse)
    ensures
        response == spec_manifold_response(other_is_dynamic, penetrating, climbable, moving_away),
        // Velocity corrections are made only against non-dynamic bodies.
        other_is_dynamic ==> response == ManifoldResponse::Unchanged,
        // A character moving away from a surface gets no impulse from it,
        // unless it is snapped to a slope it penetrates.
        moving_away && !(penetrating && climbable) ==> response == ManifoldResponse::Unchanged,
        // On a climbable slope the character never slides along it or is
        // held back from climbing it; against a wall it is never snapped.
        climbable ==> response != ManifoldResponse::SlideAlongSurface
            && response != ManifoldResponse::StopClimbing,
        !climbable ==> response != ManifoldResponse::SnapToSlope
            && response != ManifoldResponse::StopSlidingDown,
        // Penetration responses and speculative responses do not mix.
        penetrating ==> response != ManifoldResponse::StopSlidingDown
            && response != ManifoldResponse::StopClimbing,
        !penetrating ==> response != ManifoldResponse::SnapToSlope
            && response != ManifoldResponse::SlideAlongSurface,
        // Each correction, and exactly when it is made.
        (response == ManifoldResponse::SnapToSlope) == (!other_is_dynamic && penetrating && climbable),
        (response == ManifoldResponse::SlideAlongSurface) == (!other_is_dynamic && penetrating
            && !climbable && !moving_away),
        (response == ManifoldResponse::StopSlidingDown) == (!other_is_dynamic && !penetrating
            && climbable && !moving_away),
        (response == ManifoldResponse::StopClimbing) == (!other_is_dynamic && !penetrating
            && !climbable && !moving_away),
{
    if other_is_dynamic {
        return ManifoldResponse::Unchanged;
    }
    if penetrating {
        if climbable {
            ManifoldResponse::SnapToSlope
        } else if moving_away {
            ManifoldResponse::Unchanged
        } else {
            ManifoldResponse::SlideAlongSurface
        }
    } else {
        if moving_away {
            return ManifoldResponse::Unchanged;
        }
        if climbable {
            ManifoldResponse::StopSlidingDown
        } else {
            ManifoldResponse::StopClimbing
        }
    }
}

/// Which body a contact pair is handled from: the first body whenever it
/// is a kinematic physics object, the second only when the first is not a
/// physics object at all; the other body counts as dynamic exactly when it
/// is dynamic, so a static or kinematic partner always gets velocity
/// corrections.
pub proof fn contact_subject_names_the_object(
    first_is_object: bool,
    second_is_object: bool,
    first_body: Option<BodyKind>,
    second_body: Option<BodyKind>,
)
    ensures
        ({
            let subject = spec_contact_subject(first_is_object, second_is_object, first_body, second_body);
            &&& subject is Some <==> ((first_is_object && first_body == Some(BodyKind::Kinematic)) || (
            !first_is_object && second_is_object && second_body == Some(BodyKind::Kinematic)))
            &&& subject matches Some(s) ==> s.is_first == first_is_object
            &&& subject matches Some(s) ==> (s.other_is_dynamic <==> (if first_is_object {
                second_body
            } else {
                first_body
            }) == Some(BodyKind::Dynamic))
            &&& subject matches Some(s) ==> (!first_is_object && first_body == Some(BodyKind::Static)
                ==> !s.other_is_dynamic)
        }),
{
}

/// Each velocity correction is made exactly in its situation: snapping on
/// a penetrated climbable slope, sliding on a penetrated wall the
/// character moves into, and the two speculative corrections when it
/// approaches an untouched slope or wall; never against a dynamic body.
pub proof fn manifold_response_situations(
    other_is_dynamic: bool,
    penetrating: bool,
    climbable: bool,
    moving_away: bool,
)
    ensures
        ({
            let r = spec_manifold_response(other_is_dynamic, penetrating, climbable, moving_away);
            &&& (r == ManifoldResponse::SnapToSlope) == (!other_is_dynamic && penetrating && climbable)
            &&& (r == ManifoldResponse::SlideAlongSurface) == (!other_is_dynamic && penetrating
                && !climbable && !moving_away)
            &&& (r == ManifoldResponse::StopSlidingDown) == (!other_is_dynamic && !penetrating
                && climbable && !moving_away)
            &&& (r == ManifoldResponse::StopClimbing) == (!other_is_dynamic && !penetrating
                && !climbable && !moving_away)
        }),
{
}

} // verus!
