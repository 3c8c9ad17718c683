use vstd::prelude::*;

use crate::level::Point;
use crate::physics::{is_grounded, BodyKind, KinematicGravity, MovementAction, PhysicsObject};

verus! {

/// Marker of the player's character.
#[derive(Clone, Copy, Debug, PartialEq, Eq, Structural)]
pub struct Player;

/// Marker of the characters that keyboard input drives.
#[derive(Clone, Copy, Debug, PartialEq, Eq, Structural)]
pub struct InputReceiver;

/// The share of its upward speed, in percent, that a character keeps when
/// the jump button is let go during a jump.
#[derive(Clone, Copy, Debug, PartialEq, Eq, Structural)]
pub struct JumpCutMultiplier(pub u32);

/// A capsule shape: its diameter, and the length of the straight segment
/// between its two round caps.
#[derive(Clone, Copy, Debug, PartialEq, Eq, Structural)]
pub struct Capsule {
    pub diameter: u32,
    pub length: u32,
}

/// How a character moves: horizontal acceleration (units per second
/// squared), damping of the horizontal speed (per second), the vertical
/// speed a jump starts with (units per second) and the steepest slope it
/// can stand on and climb (degrees).
#[derive(Clone, Copy, Debug, PartialEq, Eq, Structural)]
pub struct MovementSettings {
    pub acceleration: u32,
    pub damping: u32,
    pub jump_impulse: u32,
    pub max_slope_degrees: u32,
}

/// Everything the player's character is spawned with.
#[derive(Clone, Copy, Debug, PartialEq, Eq, Structural)]
pub struct PlayerSpec {
    pub player: Player,
    pub input: InputReceiver,
    pub physics: PhysicsObject,
    /// The drawn shape.
    pub shape: Capsule,
    /// Where the character starts.
    pub translation: Point,
    pub body: BodyKind,
    /// The collision shape.
    pub collider: Capsule,
    pub gravity: KinematicGravity,
    pub movement: MovementSettings,
    pub jump_cut: JumpCutMultiplier,
}

/// Highest horizontal speed of a character, in units per second.
pub const MAX_SPEED: u32 = 1500;

/// Horizontal acceleration of the player's character.
pub const MOVEMENT_ACCELERATION: u32 = 3000;

/// Damping of the player's horizontal speed.
pub const MOVEMENT_DAMPING: u32 = 10;

/// Vertical speed at the start of the player's jump.
pub const JUMP_IMPULSE: u32 = 600;

/// Steepest slope the player stands on, in degrees.
pub const MAX_SLOPE_DEGREE: u32 = 30;

/// Share of the upward speed kept on a jump cut, in percent.
pub const JUMP_CUT: u32 = 40;

/// The player's character as it is spawned.
pub open spec fn spec_player() -> PlayerSpec {
    PlayerSpec {
        player: Player,
        input: InputReceiver,
        physics: PhysicsObject,
        shape: Capsule { diameter: 20, length: 15 },
        translation: Point { x: 0i32, y: -100i32 },
        body: BodyKind::Kinematic,
        collider: Capsule { diameter: 25, length: 20 },
        gravity: KinematicGravity(0i32, -1500i32),
        movement: MovementSettings {
            acceleration: MOVEMENT_ACCELERATION,
            damping: MOVEMENT_DAMPING,
            jump_impulse: JUMP_IMPULSE,
            max_slope_degrees: MAX_SLOPE_DEGREE,
        },
        jump_cut: JumpCutMultiplier(JUMP_CUT),
    }
}

/// Describes the player's character: a keyboard-driven kinematic body
/// that the game moves, pulls down and collides by hand.
pub fn spawn_player() -> (spec: PlayerSpec)
    ensures
        spec == spec_player(),
        spec.body == BodyKind::Kinematic,
        spec.gravity.0 == 0 && spec.gravity.1 < 0,
        spec.jump_cut.0 <= 100,
        spec.shape == (Capsule { diameter: 20, length: 15 }),
        spec.translation == (Point { x: 0i32, y: -100i32 }),
        spec.collider == (Capsule { diameter: 25, length: 20 }),
        spec.gravity == KinematicGravity(0i32, -1500i32),
        spec.movement == (MovementSettings {
            acceleration: 3000,
            damping: 10,
            jump_impulse: 600,
            max_slope_degrees: 30,
        }),
        spec.jump_cut == JumpCutMultiplier(40),
{
    PlayerSpec {
        player: Player,
        input: InputReceiver,
        physics: PhysicsObject,
        shape: Capsule { diameter: 20, length: 15 },
        translation: Point { x: 0i32, y: -100i32 },
        body: BodyKind::Kinematic,
        collider: Capsule { diameter: 25, length: 20 },
        gravity: KinematicGravity(0i32, -1500i32),
        movement: MovementSettings {
            acceleration: MOVEMENT_ACCELERATION,
            damping: MOVEMENT_DAMPING,
            jump_impulse: JUMP_IMPULSE,
            max_slope_degrees: MAX_SLOPE_DEGREE,
        },
        jump_cut: JumpCutMultiplier(JUMP_CUT),
    }
}

/// The actions sent for one frame of keyboard input, in order: a move
/// when exactly one of left and right is held, then a jump when the jump
/// key was just pressed, then a jump release when it was just released.
pub open spec fn spec_keyboard_actions(
    left: bool,
    right: bool,
    jump_just_pressed: bool,
    jump_just_released: bool,
) -> Seq<MovementAction> {
    let moves = if left == right {
        Seq::empty()
    } else if right {
        seq![MovementAction::Move(1i8)]
    } else {
        seq![MovementAction::Move(-1i8)]
    };
    let jumps = if jump_just_pressed {
        seq![MovementAction::Jump]
    } else {
        Seq::empty()
    };
    let releases = if jump_just_released {
        seq![MovementAction::JumpRelease]
    } else {
        Seq::empty()
    };
    moves + jumps + releases
}

/// Turns one frame of keyboard state into movement actions.
///
/// `left` and `right` say whether a left key (A or the left arrow) and a
/// right key (D or the right arrow) are held; the two others whether the
/// jump key (space) was pressed or released since the last frame.
pub fn keyboard_input(
    left: bool,
    right: bool,
    jump_just_pressed: bool,
    jump_just_released: bool,
) -> (actions: Vec<MovementAction>)
    ensures
        actions@ == spec_keyboard_actions(left, right, jump_just_pressed, jump_just_released),
        actions@.len() <= 3,
        // Holding both directions, or neither, moves nowhere.
        left == right ==> forall|i: int|
            0 <= i < actions@.len() ==> !(#[trigger] actions@[i] is Move),
        // Each key event gives its action, whatever else is held.
        actions@.contains(MovementAction::JumpRelease) <==> jump_just_released,
        jump_just_released ==> actions@.last() == MovementAction::JumpRelease,
        actions@.contains(MovementAction::Jump) <==> jump_just_pressed,
        actions@.contains(MovementAction::Move(1i8)) <==> (right && !left),
        actions@.contains(MovementAction::Move(-1i8)) <==> (left && !right),
        left != right ==> actions@[0] == MovementAction::Move(if right { 1i8 } else { -1i8 }),
        forall|i: int|
            0 <= i < actions@.len() ==> (#[trigger] actions@[i] is Move ==> actions@[i]
                == MovementAction::Move(if right { 1i8 } else { -1i8 })),
        actions@.len() == (if left != right { 1int } else { 0int }) + (if jump_just_pressed {
            1int
        } else {
            0int
        }) + (if jump_just_released { 1int } else { 0int }),
{
    let mut actions: Vec<MovementAction> = Vec::new();
    let horizontal: i8 = right as i8 - left as i8;
    if horizontal != 0 {
        actions.push(MovementAction::Move(horizontal));
    }
    if jump_just_pressed {
        actions.push(MovementAction::Jump);
    }
    if jump_just_released {
        actions.push(MovementAction::JumpRelease);
    }
    assert(actions@ =~= spec_keyboard_actions(left, right, jump_just_pressed, jump_just_released));
    proof {
        keyboard_actions_per_key(left, right, jump_just_pressed, jump_just_released);
    }
    actions
}

/// How one movement action changes a character's velocity.
#[derive(Clone, Copy, Debug, PartialEq, Eq, Structural)]
pub enum VelocityChange {
    /// Add the direction times the acceleration times the frame time to
    /// the horizontal speed, then clamp it to the maximum speed.
    Accelerate(i8),
    /// Set the vertical speed to the jump impulse.
    Jump,
    /// Multiply the vertical speed by the jump cut multiplier.
    CutJump,
    /// Leave the velocity as it is.
    Unchanged,
}

/// A move always accelerates; a jump only starts from the ground; a jump
/// release only cuts a rising character's speed.
pub open spec fn spec_move_player(action: MovementAction, grounded: bool, rising: bool) -> VelocityChange {
    match action {
        MovementAction::Move(direction) => VelocityChange::Accelerate(direction),
        MovementAction::Jump => if grounded {
            VelocityChange::Jump
        } else {
            VelocityChange::Unchanged
        },
        MovementAction::JumpRelease => if rising {
            VelocityChange::CutJump
        } else {
            VelocityChange::Unchanged
        },
    }
}

/// Decides how an action changes a character's velocity, given whether the
/// character is grounded and whether its vertical speed is positive.
pub fn move_player(action: &MovementAction, grounded: bool, rising: bool) -> (change: VelocityChange)
    ensures
        change == spec_move_player(*action, grounded, rising),
        change == VelocityChange::Jump ==> grounded,
        change == VelocityChange::CutJump ==> rising,
        // A move accelerates in its direction whatever the character's state.
        forall|d: i8| *action == MovementAction::Move(d) ==> change == VelocityChange::Accelerate(d),
        (change == VelocityChange::Jump) == (*action == MovementAction::Jump && grounded),
        (change == VelocityChange::CutJump) == (*action == MovementAction::JumpRelease && rising),
        (change is Accelerate) == (*action is Move),
{
    match action {
        MovementAction::Move(direction) => VelocityChange::Accelerate(*direction),
        MovementAction::Jump => {
            if grounded {
                VelocityChange::Jump
            } else {
                VelocityChange::Unchanged
            }
        },
        MovementAction::JumpRelease => {
            if rising {
                VelocityChange::CutJump
            } else {
                VelocityChange::Unchanged
            }
        },
    }
}

/// Keyboard input accelerates a character only towards the one direction
/// key held: right gives +1, left gives -1, both or neither give nothing.
pub proof fn held_key_sets_direction(
    left: bool,
    right: bool,
    jump_just_pressed: bool,
    jump_just_released: bool,
    grounded: bool,
    rising: bool,
    i: int,
)
    requires
        0 <= i < spec_keyboard_actions(left, right, jump_just_pressed, jump_just_released).len(),
    ensures
        ({
            let change = spec_move_player(
                spec_keyboard_actions(left, right, jump_just_pressed, jump_just_released)[i],
                grounded,
                rising,
            );
            &&& change matches VelocityChange::Accelerate(d) ==> (left != right && d == (if right {
                1i8
            } else {
                -1i8
            }))
            &&& left == right ==> !(change is Accelerate)
        }),
{
}

/// A character whose ground caster finds nothing that counts cannot jump,
/// and one that stands on ground jumps as soon as the jump key is pressed.
pub proof fn jump_needs_ground(
    has_max_slope: bool,
    flat_enough: Seq<bool>,
    left: bool,
    right: bool,
    jump_just_released: bool,
    rising: bool,
)
    ensures
        spec_move_player(MovementAction::Jump, is_grounded(has_max_slope, flat_enough), rising) == (
        if is_grounded(has_max_slope, flat_enough) {
            VelocityChange::Jump
        } else {
            VelocityChange::Unchanged
        }),
        spec_keyboard_actions(left, right, true, jump_just_released).contains(MovementAction::Jump),
{
    let s = spec_keyboard_actions(left, right, true, jump_just_released);
    let k: int = if left == right { 0 } else { 1 };
    assert(s[k] == MovementAction::Jump);
}

/// Every key event of a frame gives its own action, independently of the
/// others: a jump release whenever the jump key was let go (always last),
/// a jump whenever it was pressed, and a move exactly when one direction
/// key alone is held, in that key's direction.
pub proof fn keyboard_actions_per_key(
    left: bool,
    right: bool,
    jump_just_pressed: bool,
    jump_just_released: bool,
)
    ensures
        ({
            let a = spec_keyboard_actions(left, right, jump_just_pressed, jump_just_released);
            &&& a.contains(MovementAction::JumpRelease) <==> jump_just_released
            &&& jump_just_released ==> a.last() == MovementAction::JumpRelease
            &&& a.contains(MovementAction::Jump) <==> jump_just_pressed
            &&& a.contains(MovementAction::Move(1i8)) <==> (right && !left)
            &&& a.contains(MovementAction::Move(-1i8)) <==> (left && !right)
            &&& left != right ==> a[0] == MovementAction::Move(if right { 1i8 } else { -1i8 })
            &&& forall|i: int|
                0 <= i < a.len() ==> (#[trigger] a[i] is Move ==> a[i] == MovementAction::Move(
                    if right { 1i8 } else { -1i8 },
                ))
            &&& a.len() == (if left != right { 1int } else { 0int }) + (if jump_just_pressed {
                1int
            } else {
                0int
            }) + (if jump_just_released { 1int } else { 0int })
        }),
{
    let a = spec_keyboard_actions(left, right, jump_just_pressed, jump_just_released);
    let m: int = if left != right { 1 } else { 0 };
    let j: int = if jump_just_pressed { 1 } else { 0 };
    if jump_just_released {
        assert(a[m + j] == MovementAction::JumpRelease);
    }
    if jump_just_pressed {
        assert(a[m] == MovementAction::Jump);
    }
    if left != right {
        assert(a[0] == MovementAction::Move(if right { 1i8 } else { -1i8 }));
    }
    assert(forall|i: int| 0 <= i < a.len() && i != 0 ==> !(#[trigger] a[i] is Move));
    assert(forall|i: int|
        0 <= i < a.len() && (!jump_just_released || i != m + j) ==> #[trigger] a[i]
            != MovementAction::JumpRelease);
    assert(forall|i: int|
        0 <= i < a.len() && (!jump_just_pressed || i != m) ==> #[trigger] a[i] != MovementAction::Jump);
}

/// A move accelerates the character in the move's direction whether it is
/// grounded or airborne, rising or falling; a jump changes its velocity
/// exactly when it is grounded, and a jump release exactly when it rises.
pub proof fn movement_in_every_state(d: i8, grounded: bool, rising: bool)
    ensures
        spec_move_player(MovementAction::Move(d), grounded, rising) == VelocityChange::Accelerate(d),
        (spec_move_player(MovementAction::Jump, grounded, rising) == VelocityChange::Jump) == grounded,
        (spec_move_player(MovementAction::Jump, grounded, rising) == VelocityChange::Unchanged) == !grounded,
        (spec_move_player(MovementAction::JumpRelease, grounded, rising) == VelocityChange::CutJump) == rising,
        (spec_move_player(MovementAction::JumpRelease, grounded, rising) == VelocityChange::Unchanged) == !rising,
{
}

} // verus!
