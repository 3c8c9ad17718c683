use platformer::physics::{check_grounded, Grounded, KinematicGravity, MovementAction, PhysicsObject};
use platformer::player::{
    keyboard_input, move_player, spawn_player, Capsule, InputReceiver, JumpCutMultiplier, MovementSettings,
    Player, VelocityChange,
};
use platformer::level::Point;
use platformer::physics::BodyKind;

#[test]
fn right_key_moves_right() {
    assert_eq!(keyboard_input(false, true, false, false), vec![MovementAction::Move(1)]);
}

#[test]
fn left_key_moves_left() {
    assert_eq!(keyboard_input(true, false, false, false), vec![MovementAction::Move(-1)]);
}

#[test]
fn both_keys_cancel_out() {
    assert_eq!(keyboard_input(true, true, false, false), vec![]);
    assert_eq!(keyboard_input(false, false, false, false), vec![]);
}

#[test]
fn all_actions_in_order() {
    assert_eq!(
        keyboard_input(true, false, true, true),
        vec![MovementAction::Move(-1), MovementAction::Jump, MovementAction::JumpRelease]
    );
    assert_eq!(
        keyboard_input(true, true, true, false),
        vec![MovementAction::Jump]
    );
    assert_eq!(
        keyboard_input(false, false, false, true),
        vec![MovementAction::JumpRelease]
    );
}

#[test]
fn move_always_accelerates() {
    assert_eq!(move_player(&MovementAction::Move(1), false, false), VelocityChange::Accelerate(1));
    assert_eq!(move_player(&MovementAction::Move(-1), true, true), VelocityChange::Accelerate(-1));
}

#[test]
fn jump_only_from_ground() {
    assert_eq!(move_player(&MovementAction::Jump, true, false), VelocityChange::Jump);
    assert_eq!(move_player(&MovementAction::Jump, true, true), VelocityChange::Jump);
    assert_eq!(move_player(&MovementAction::Jump, false, false), VelocityChange::Unchanged);
    assert_eq!(move_player(&MovementAction::Jump, false, true), VelocityChange::Unchanged);
}

#[test]
fn jump_release_cuts_only_rising() {
    assert_eq!(move_player(&MovementAction::JumpRelease, false, true), VelocityChange::CutJump);
    assert_eq!(move_player(&MovementAction::JumpRelease, true, true), VelocityChange::CutJump);
    assert_eq!(move_player(&MovementAction::JumpRelease, false, false), VelocityChange::Unchanged);
    assert_eq!(move_player(&MovementAction::JumpRelease, true, false), VelocityChange::Unchanged);
}

#[test]
fn no_hits_not_grounded() {
    assert_eq!(check_grounded(false, &vec![]), None);
    assert_eq!(check_grounded(true, &vec![]), None);
}

#[test]
fn any_hit_grounds_without_slope_limit() {
    assert_eq!(check_grounded(false, &vec![false]), Some(Grounded));
    assert_eq!(check_grounded(false, &vec![false, false, false]), Some(Grounded));
}

#[test]
fn slope_limit_needs_a_flat_hit() {
    assert_eq!(check_grounded(true, &vec![false, false]), None);
    assert_eq!(check_grounded(true, &vec![false, true, false]), Some(Grounded));
    assert_eq!(check_grounded(true, &vec![true]), Some(Grounded));
}

#[test]
fn player_spawn_values() {
    let player = spawn_player();
    assert_eq!(player.player, Player);
    assert_eq!(player.input, InputReceiver);
    assert_eq!(player.physics, PhysicsObject);
    assert_eq!(player.shape, Capsule { diameter: 20, length: 15 });
    assert_eq!(player.translation, Point { x: 0, y: -100 });
    assert_eq!(player.body, BodyKind::Kinematic);
    assert_eq!(player.collider, Capsule { diameter: 25, length: 20 });
    assert_eq!(player.gravity, KinematicGravity(0, -1500));
    assert_eq!(
        player.movement,
        MovementSettings { acceleration: 3000, damping: 10, jump_impulse: 600, max_slope_degrees: 30 }
    );
    assert_eq!(player.jump_cut, JumpCutMultiplier(40));
}

#[test]
fn pressing_jump_on_ground_jumps() {
    let grounded = check_grounded(true, &vec![true]).is_some();
    let actions = keyboard_input(false, false, true, false);
    let changes: Vec<VelocityChange> = actions.iter().map(|a| move_player(a, grounded, false)).collect();
    assert_eq!(changes, vec![VelocityChange::Jump]);
}

#[test]
fn pressing_jump_in_mid_air_does_nothing() {
    let grounded = check_grounded(true, &vec![false]).is_some();
    let actions = keyboard_input(false, true, true, false);
    let changes: Vec<VelocityChange> = actions.iter().map(|a| move_player(a, grounded, true)).collect();
    assert_eq!(changes, vec![VelocityChange::Accelerate(1), VelocityChange::Unchanged]);
}
