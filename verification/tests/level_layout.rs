use platformer::level::{spawn_level, spawn_platform, spawn_ramp_1, spawn_ramp_2, Point, Size, Triangle};
use platformer::physics::BodyKind;

fn p(x: i32, y: i32) -> Point {
    Point { x, y }
}

#[test]
fn platform_collider_matches_sprite() {
    let platform = spawn_platform(Size { width: 300, height: 25 }, p(175, -35));
    assert_eq!(platform.sprite_size, Size { width: 300, height: 25 });
    assert_eq!(platform.collider, Size { width: 300, height: 25 });
    assert_eq!(platform.translation, p(175, -35));
    assert_eq!(platform.body, BodyKind::Static);
}

#[test]
fn level_has_five_platforms_in_order() {
    let level = spawn_level();
    let expected = [
        (1100, 50, 0, -175),
        (300, 25, 175, -35),
        (300, 25, -175, 0),
        (150, 80, 475, -110),
        (150, 80, -475, -110),
    ];
    assert_eq!(level.platforms.len(), 5);
    for (platform, (w, h, x, y)) in level.platforms.iter().zip(expected.iter()) {
        assert_eq!(platform.sprite_size, Size { width: *w, height: *h });
        assert_eq!(platform.collider, platform.sprite_size);
        assert_eq!(platform.translation, p(*x, *y));
        assert_eq!(platform.body, BodyKind::Static);
    }
}

#[test]
fn first_ramp_layout() {
    let ramp = spawn_ramp_1();
    let triangle = Triangle { a: p(-125, 80), b: p(-125, 0), c: p(125, 0) };
    assert_eq!(ramp.mesh, triangle);
    assert_eq!(ramp.collider, triangle);
    assert_eq!(ramp.translation, p(-275, -150));
    assert_eq!(ramp.body, BodyKind::Static);
}

#[test]
fn second_ramp_layout() {
    let ramp = spawn_ramp_2();
    let triangle = Triangle { a: p(20, -40), b: p(20, 40), c: p(-20, -40) };
    assert_eq!(ramp.mesh, triangle);
    assert_eq!(ramp.collider, triangle);
    assert_eq!(ramp.translation, p(380, -110));
    assert_eq!(ramp.body, BodyKind::Static);
}

#[test]
fn level_ramps_are_the_two_ramps() {
    let level = spawn_level();
    assert_eq!(level.ramps, vec![spawn_ramp_1(), spawn_ramp_2()]);
}
