use vstd::prelude::*;

pub mod handle_kinematic_collisions;

verus! {

/// How a rigid body is simulated.
#[derive(Clone, Copy, Debug, PartialEq, Eq, Structural)]
pub enum BodyKind {
    /// Never moves.
    Static,
    /// Moved by its velocity only; collisions do not push it.
    Kinematic,
    /// Moved by forces and collisions.
    Dynamic,
}

/// Marker carried by a character while it stands on walkable ground.
#[derive(Clone, Copy, Debug, PartialEq, Eq, Structural)]
pub struct Grounded;

/// Marker of the bodies whose gravity and collisions the game handles itself.
#[derive(Clone, Copy, Debug, PartialEq, Eq, Structural)]
pub struct PhysicsObject;

/// Gravity applied by hand to a kinematic body, as an acceleration vector
/// in world units per second squared.
#[derive(Clone, Copy, Debug, PartialEq, Eq, Structural)]
pub struct KinematicGravity(pub i32, pub i32);

/// What a player asked a character to do this frame.
#[derive(Clone, Copy, Debug, PartialEq, Eq, Structural)]
pub enum MovementAction {
    /// Accelerate horizontally: negative is left, positive is right.
    Move(i8),
    /// Jump, if standing on the ground.
    Jump,
    /// The jump button was let go: cut an upward jump short.
    JumpRelease,
}

/// A character is grounded when at least one of the ground caster's hits
/// counts: every hit counts when the character has no maximum slope angle,
/// otherwise only hits whose surface is flat enough.
pub open spec fn is_grounded(has_max_slope: bool, flat_enough: Seq<bool>) -> bool {
    if has_max_slope {
        flat_enough.contains(true)
    } else {
        flat_enough.len() > 0
    }
}

/// Decides whether a character carries the `Grounded` marker: it does
/// when one of its ground hits counts, as `is_grounded` says.
///
/// `flat_enough` holds one entry per hit of the character's ground caster:
/// whether the hit surface is within the character's maximum slope angle.
/// The entries are not read when the character has no maximum slope angle.
pub fn check_grounded(has_max_slope: bool, flat_enough: &Vec<bool>) -> (marker: Option<Grounded>)
    ensures
        marker is Some <==> is_grounded(has_max_slope, flat_enough@),
        flat_enough@.len() == 0 ==> marker is None,
        !has_max_slope ==> (marker is Some <==> flat_enough@.len() > 0),
        // With a slope limit, any flat hit at any position grounds the
        // character, and only a flat hit does.
        has_max_slope ==> (marker is Some <==> exists|i: int|
            0 <= i < flat_enough@.len() && #[trigger] flat_enough@[i] == true),
        has_max_slope ==> forall|i: int|
            0 <= i < flat_enough@.len() && #[trigger] flat_enough@[i] == true ==> marker is Some,
{
    let n = flat_enough.len();
    if !has_max_slope {
        return if n > 0 { Some(Grounded) } else { None };
    }
    let mut i: usize = 0;
    while i < n
        invariant
            n == flat_enough@.len(),
            i <= n,
            has_max_slope,
            forall|j: int| 0 <= j < i ==> flat_enough@[j] == false,
        decreases n - i,
    {
        if flat_enough[i] {
            assert(flat_enough@[i as int] == true);
            return Some(Grounded);
        }
        i = i + 1;
    }
    None
}

/// Being grounded does not depend on where a counting hit comes in the
/// list: any flat hit grounds a character with a slope limit, any hit at
/// all grounds one without, and nothing else does.
pub proof fn grounded_by_any_counting_hit(has_max_slope: bool, flat_enough: Seq<bool>, i: int)
    requires
        0 <= i < flat_enough.len(),
    ensures
        !has_max_slope ==> is_grounded(has_max_slope, flat_enough),
        has_max_slope && flat_enough[i] ==> is_grounded(has_max_slope, flat_enough),
        is_grounded(has_max_slope, flat_enough) ==> flat_enough.len() > 0,
        has_max_slope && is_grounded(has_max_slope, flat_enough) ==> exists|j: int|
            0 <= j < flat_enough.len() && #[trigger] flat_enough[j] == true,
        has_max_slope && (forall|j: int| 0 <= j < flat_enough.len() ==> #[trigger] flat_enough[j] == false)
            ==> !is_grounded(has_max_slope, flat_enough),
{
    if has_max_slope && flat_enough[i] {
        assert(flat_enough[i] == true);
    }
}

} // verus!
