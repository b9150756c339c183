//! Physics-material derivation: friction, restitution and collider extents
//! for each kind of body. Coefficients are fixed-point numbers in thousandths;
//! lengths are world units in thousandths.
use vstd::prelude::*;

verus! {

/// One world unit, in the fixed-point length scale of the library.
pub const UNIT: i64 = 1000;

/// Coefficient of restitution shared by platforms and walls (0.4).
pub const BOUNCE_EFFECT: u32 = 400;

/// Width of a door platform (160 units).
pub const PLATFORM_WIDTH: i64 = 160_000;

/// Height of a door platform (20 units).
pub const PLATFORM_HEIGHT: i64 = 20_000;

/// Width of the window (1200 units).
pub const WINDOW_WIDTH: i64 = 1_200_000;

/// Height of the window (800 units).
pub const WINDOW_HEIGHT: i64 = 800_000;

/// Half thickness of the world boundary bodies (0.1 units).
pub const BOUNDARY_THICKNESS: i64 = 100;

/// Horizontal distance of each wall from the centre (1500 units).
pub const WALL_DISTANCE_FROM_CENTER: i64 = 1_500_000;

/// Width of the ground and of the ceiling.
pub const FLOOR_CEILING_WIDTH: i64 = WALL_DISTANCE_FROM_CENTER * 2;

/// Half size of the player's square collider (40 units).
pub const PLAYER_HALF_SIZE: i64 = 40_000;

/// A point or an offset in world space.
#[derive(Clone, Copy, Debug, PartialEq, Eq, Structural)]
pub struct Point {
    pub x: i64,
    pub y: i64,
}

/// Two lengths: half extents of a collider, or the size of a sprite or a box.
#[derive(Clone, Copy, Debug, PartialEq, Eq, Structural)]
pub struct Extents {
    pub width: i64,
    pub height: i64,
}

/// An sRGB colour, each channel in thousandths.
#[derive(Clone, Copy, Debug, PartialEq, Eq, Structural)]
pub struct Rgb {
    pub r: u32,
    pub g: u32,
    pub b: u32,
}

/// How the coefficients of two bodies in contact are merged into one.
#[derive(Clone, Copy, Debug, PartialEq, Eq, Structural)]
pub enum CoefficientCombine {
    Average,
    Max,
}

/// Friction of a body: coefficients in thousandths.
#[derive(Clone, Copy, Debug, PartialEq, Eq, Structural)]
pub struct Friction {
    pub dynamic_coefficient: u32,
    pub static_coefficient: u32,
    pub combine_rule: CoefficientCombine,
}

/// Restitution of a body: coefficient in thousandths.
#[derive(Clone, Copy, Debug, PartialEq, Eq, Structural)]
pub struct Restitution {
    pub coefficient: u32,
    pub combine_rule: CoefficientCombine,
}

/// The friction and restitution given to a body; either may be absent.
#[derive(Clone, Copy, Debug, PartialEq, Eq, Structural)]
pub struct PhysicsMaterial {
    pub friction: Option<Friction>,
    pub restitution: Option<Restitution>,
}

/// The kinds of body whose physics attributes the library derives.
#[derive(Clone, Copy, Debug, PartialEq, Eq, Structural)]
pub enum FixtureKind {
    Ground,
    Wall,
    Ceiling,
    Platform,
    Player,
}

/// Merges the coefficients `a` and `b` of two bodies in contact by `rule`.
pub open spec fn combined(rule: CoefficientCombine, a: int, b: int) -> int {
    match rule {
        CoefficientCombine::Average => (a + b) / 2,
        CoefficientCombine::Max => if a >= b { a } else { b },
    }
}

/// Merges two coefficients by `rule`.
pub fn combine(rule: CoefficientCombine, a: u32, b: u32) -> (r: u32)
    ensures
        r == combined(rule, a as int, b as int),
{
    match rule {
        CoefficientCombine::Average => ((a as u64 + b as u64) / 2) as u32,
        CoefficientCombine::Max => if a >= b { a } else { b },
    }
}

pub open spec fn averaged_friction(dynamic: u32, stat: u32) -> Option<Friction> {
    Some(Friction { dynamic_coefficient: dynamic, static_coefficient: stat, combine_rule: CoefficientCombine::Average })
}

pub open spec fn max_restitution(coefficient: u32) -> Option<Restitution> {
    Some(Restitution { coefficient, combine_rule: CoefficientCombine::Max })
}

/// The material of each kind of body. Friction always averages and
/// restitution always takes the maximum; only the coefficients vary.
pub open spec fn material_of(kind: FixtureKind) -> PhysicsMaterial {
    match kind {
        FixtureKind::Ground => PhysicsMaterial {
            friction: averaged_friction(800, 900),
            restitution: max_restitution((BOUNCE_EFFECT % 2000) as u32),
        },
        FixtureKind::Wall => PhysicsMaterial {
            friction: averaged_friction(500, 600),
            restitution: max_restitution(BOUNCE_EFFECT),
        },
        FixtureKind::Ceiling => PhysicsMaterial {
            friction: None,
            restitution: max_restitution(BOUNCE_EFFECT),
        },
        FixtureKind::Platform => PhysicsMaterial {
            friction: averaged_friction(600, 800),
            restitution: max_restitution(BOUNCE_EFFECT),
        },
        FixtureKind::Player => PhysicsMaterial {
            friction: averaged_friction(300, 500),
            restitution: None,
        },
    }
}

/// The half extents of the collider of each kind of body.
pub open spec fn half_extents_of(kind: FixtureKind) -> Extents {
    match kind {
        FixtureKind::Ground => Extents { width: (FLOOR_CEILING_WIDTH / 2) as i64, height: BOUNDARY_THICKNESS },
        FixtureKind::Wall => Extents { width: BOUNDARY_THICKNESS, height: (WINDOW_HEIGHT / 2) as i64 },
        FixtureKind::Ceiling => Extents { width: (FLOOR_CEILING_WIDTH / 2) as i64, height: BOUNDARY_THICKNESS },
        FixtureKind::Platform => Extents { width: (PLATFORM_WIDTH / 2) as i64, height: (PLATFORM_HEIGHT / 2) as i64 },
        FixtureKind::Player => Extents { width: PLAYER_HALF_SIZE, height: PLAYER_HALF_SIZE },
    }
}

fn averaged(dynamic: u32, stat: u32) -> (r: Option<Friction>)
    ensures
        r == averaged_friction(dynamic, stat),
{
    Some(Friction { dynamic_coefficient: dynamic, static_coefficient: stat, combine_rule: CoefficientCombine::Average })
}

fn max_of(coefficient: u32) -> (r: Option<Restitution>)
    ensures
        r == max_restitution(coefficient),
{
    Some(Restitution { coefficient, combine_rule: CoefficientCombine::Max })
}

/// Derives the friction and restitution of a body of the given kind.
pub fn material(kind: FixtureKind) -> (r: PhysicsMaterial)
    ensures
        r == material_of(kind),
        kind == FixtureKind::Platform ==> r.friction == averaged_friction(600, 800)
            && r.restitution == max_restitution(BOUNCE_EFFECT),
        kind == FixtureKind::Ground ==> r.friction == averaged_friction(800, 900)
            && r.restitution == max_restitution((BOUNCE_EFFECT % 2000) as u32),
{
    match kind {
        FixtureKind::Ground => PhysicsMaterial { friction: averaged(800, 900), restitution: max_of(BOUNCE_EFFECT % 2000) },
        FixtureKind::Wall => PhysicsMaterial { friction: averaged(500, 600), restitution: max_of(BOUNCE_EFFECT) },
        FixtureKind::Ceiling => PhysicsMaterial { friction: None, restitution: max_of(BOUNCE_EFFECT) },
        FixtureKind::Platform => PhysicsMaterial { friction: averaged(600, 800), restitution: max_of(BOUNCE_EFFECT) },
        FixtureKind::Player => PhysicsMaterial { friction: averaged(300, 500), restitution: None },
    }
}

/// The half extents of the collider of a body of the given kind.
pub fn collider_half_extents(kind: FixtureKind) -> (r: Extents)
    ensures
        r == half_extents_of(kind),
{
    match kind {
        FixtureKind::Ground => Extents { width: FLOOR_CEILING_WIDTH / 2, height: BOUNDARY_THICKNESS },
        FixtureKind::Wall => Extents { width: BOUNDARY_THICKNESS, height: WINDOW_HEIGHT / 2 },
        FixtureKind::Ceiling => Extents { width: FLOOR_CEILING_WIDTH / 2, height: BOUNDARY_THICKNESS },
        FixtureKind::Platform => Extents { width: PLATFORM_WIDTH / 2, height: PLATFORM_HEIGHT / 2 },
        FixtureKind::Player => Extents { width: PLAYER_HALF_SIZE, height: PLAYER_HALF_SIZE },
    }
}

} // verus!
