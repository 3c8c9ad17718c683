use vstd::prelude::*;

use crate::physics::BodyKind;

verus! {

/// A point of the world, in world units; y points up.
#[derive(Clone, Copy, Debug, PartialEq, Eq, Structural)]
pub struct Point {
    pub x: i32,
    pub y: i32,
}

/// The width and height of a rectangle, in world units.
#[derive(Clone, Copy, Debug, PartialEq, Eq, Structural)]
pub struct Size {
    pub width: u32,
    pub height: u32,
}

/// A triangle given by its three corners, relative to its entity's position.
#[derive(Clone, Copy, Debug, PartialEq, Eq, Structural)]
pub struct Triangle {
    pub a: Point,
    pub b: Point,
    pub c: Point,
}

/// A rectangular platform: the drawn sprite, where its centre stands, how
/// it is simulated and its rectangular collider.
#[derive(Clone, Copy, Debug, PartialEq, Eq, Structural)]
pub struct PlatformSpec {
    pub sprite_size: Size,
    pub translation: Point,
    pub body: BodyKind,
    pub collider: Size,
}

/// A triangular ramp: the drawn triangle mesh, where it stands, how it is
/// simulated and its triangular collider.
#[derive(Clone, Copy, Debug, PartialEq, Eq, Structural)]
pub struct RampSpec {
    pub mesh: Triangle,
    pub translation: Point,
    pub body: BodyKind,
    pub collider: Triangle,
}

/// The whole level.
pub struct Level {
    pub platforms: Vec<PlatformSpec>,
    pub ramps: Vec<RampSpec>,
}

pub open spec fn point(x: int, y: int) -> Point {
    Point { x: x as i32, y: y as i32 }
}

/// A static platform of the given size centred on the given position,
/// whose collider is exactly its sprite.
pub open spec fn platform(width: int, height: int, x: int, y: int) -> PlatformSpec {
    PlatformSpec {
        sprite_size: Size { width: width as u32, height: height as u32 },
        translation: point(x, y),
        body: BodyKind::Static,
        collider: Size { width: width as u32, height: height as u32 },
    }
}

/// A piece of level geometry never moves and collides exactly where it is
/// drawn.
pub open spec fn platform_is_solid_scenery(p: PlatformSpec) -> bool {
    p.body == BodyKind::Static && p.collider == p.sprite_size
}

pub open spec fn ramp_is_solid_scenery(r: RampSpec) -> bool {
    r.body == BodyKind::Static && r.collider == r.mesh
}

/// Describes a static platform of the given size centred on `position`.
pub fn spawn_platform(size: Size, position: Point) -> (platform: PlatformSpec)
    ensures
        platform == (PlatformSpec {
            sprite_size: size,
            translation: position,
            body: BodyKind::Static,
            collider: size,
        }),
        platform_is_solid_scenery(platform),
{
    PlatformSpec {
        sprite_size: size,
        translation: position,
        body: BodyKind::Static,
        collider: Size { width: size.width, height: size.height },
    }
}

/// The first ramp: a right triangle rising to the left, 250 wide and 80
/// high, standing at (-275, -150).
pub open spec fn spec_ramp_1() -> RampSpec {
    RampSpec {
        mesh: Triangle { a: point(-125, 80), b: point(-125, 0), c: point(125, 0) },
        translation: point(-275, -150),
        body: BodyKind::Static,
        collider: Triangle { a: point(-125, 80), b: point(-125, 0), c: point(125, 0) },
    }
}

/// The second ramp: a right triangle rising to the right, 40 wide and 80
/// high, standing at (380, -110).
pub open spec fn spec_ramp_2() -> RampSpec {
    RampSpec {
        mesh: Triangle { a: point(20, -40), b: point(20, 40), c: point(-20, -40) },
        translation: point(380, -110),
        body: BodyKind::Static,
        collider: Triangle { a: point(20, -40), b: point(20, 40), c: point(-20, -40) },
    }
}

/// Describes the first ramp. Its mesh and its collider are given apart,
/// and are proved to be the same triangle.
pub fn spawn_ramp_1() -> (ramp: RampSpec)
    ensures
        ramp == spec_ramp_1(),
        ramp_is_solid_scenery(ramp),
{
    let mesh = Triangle {
        a: Point { x: -125, y: 80 },
        b: Point { x: -125, y: 0 },
        c: Point { x: 125, y: 0 },
    };
    let collider = Triangle {
        a: Point { x: -125, y: 80 },
        b: Point { x: -125, y: 0 },
        c: Point { x: 125, y: 0 },
    };
    RampSpec { mesh, translation: Point { x: -275, y: -150 }, body: BodyKind::Static, collider }
}

/// Describes the second ramp. Its mesh and its collider are given apart,
/// and are proved to be the same triangle.
pub fn spawn_ramp_2() -> (ramp: RampSpec)
    ensures
        ramp == spec_ramp_2(),
        ramp_is_solid_scenery(ramp),
{
    let mesh = Triangle {
        a: Point { x: 20, y: -40 },
        b: Point { x: 20, y: 40 },
        c: Point { x: -20, y: -40 },
    };
    let collider = Triangle {
        a: Point { x: 20, y: -40 },
        b: Point { x: 20, y: 40 },
        c: Point { x: -20, y: -40 },
    };
    RampSpec { mesh, translation: Point { x: 380, y: -110 }, body: BodyKind::Static, collider }
}

/// The platforms of the level, in the order they are spawned: the floor,
/// two ledges and two blocks at the far ends.
pub open spec fn spec_platforms() -> Seq<PlatformSpec> {
    seq![
        platform(1100, 50, 0, -175),
        platform(300, 25, 175, -35),
        platform(300, 25, -175, 0),
        platform(150, 80, 475, -110),
        platform(150, 80, -475, -110),
    ]
}

/// Describes the whole level: five platforms and two ramps, all of them
/// static scenery.
pub fn spawn_level() -> (level: Level)
    ensures
        level.platforms@ == spec_platforms(),
        level.ramps@ == seq![spec_ramp_1(), spec_ramp_2()],
        forall|i: int|
            0 <= i < level.platforms@.len() ==> platform_is_solid_scenery(#[trigger] level.platforms@[i]),
        forall|i: int| 0 <= i < level.ramps@.len() ==> ramp_is_solid_scenery(#[trigger] level.ramps@[i]),
        // The layout, piece by piece.
        level.platforms@.len() == 5 && level.ramps@.len() == 2,
        level.platforms@[0].sprite_size == (Size { width: 1100, height: 50 }),
        level.platforms@[0].translation == point(0, -175),
        level.platforms@[1].sprite_size == (Size { width: 300, height: 25 }),
        level.platforms@[1].translation == point(175, -35),
        level.platforms@[2].sprite_size == (Size { width: 300, height: 25 }),
        level.platforms@[2].translation == point(-175, 0),
        level.platforms@[3].sprite_size == (Size { width: 150, height: 80 }),
        level.platforms@[3].translation == point(475, -110),
        level.platforms@[4].sprite_size == (Size { width: 150, height: 80 }),
        level.platforms@[4].translation == point(-475, -110),
        level.ramps@[0].translation == point(-275, -150),
        level.ramps@[0].mesh == (Triangle {
            a: point(-125, 80),
            b: point(-125, 0),
            c: point(125, 0),
        }),
        level.ramps@[1].translation == point(380, -110),
        level.ramps@[1].mesh == (Triangle {
            a: point(20, -40),
            b: point(20, 40),
            c: point(-20, -40),
        }),
{
    let mut platforms: Vec<PlatformSpec> = Vec::new();
    platforms.push(spawn_platform(Size { width: 1100, height: 50 }, Point { x: 0, y: -175 }));
    platforms.push(spawn_platform(Size { width: 300, height: 25 }, Point { x: 175, y: -35 }));
    platforms.push(spawn_platform(Size { width: 300, height: 25 }, Point { x: -175, y: 0 }));
    platforms.push(spawn_platform(Size { width: 150, height: 80 }, Point { x: 475, y: -110 }));
    platforms.push(spawn_platform(Size { width: 150, height: 80 }, Point { x: -475, y: -110 }));

    let mut ramps: Vec<RampSpec> = Vec::new();
    ramps.push(spawn_ramp_1());
    ramps.push(spawn_ramp_2());

    assert(platforms@ =~= spec_platforms());
    assert(ramps@ =~= seq![spec_ramp_1(), spec_ramp_2()]);
    Level { platforms, ramps }
}

} // verus!
