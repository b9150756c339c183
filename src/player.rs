//! The player's body and the actions a player can take.
use vstd::prelude::*;
use crate::physics::{
    collider_half_extents, half_extents_of, material, material_of, Extents, FixtureKind, Friction, Point,
    Rgb, PLAYER_HALF_SIZE,
};
use crate::scene::Sprite;

verus! {

/// Horizontal movement speed (500 units per second).
pub const PLAYER_MOVE_SPEED: i64 = 500_000;

/// Force applied on a jump (25000).
pub const PLAYER_JUMP_FORCE: i64 = 25_000_000;

/// Gravity multiplier of the player (25), in thousandths.
pub const PLAYER_GRAVITY_SCALE: u32 = 25_000;

/// Mass of the player (1.0), in thousandths.
pub const PLAYER_MASS: u32 = 1000;

/// Marks the body that the player controls.
#[derive(Clone, Copy, Debug, PartialEq, Eq, Structural)]
pub struct Player;

/// What a player can ask for.
#[derive(Clone, Copy, Debug, PartialEq, Eq, Hash, Structural)]
pub enum Action {
    MoveLeft,
    MoveRight,
    Jump,
    Enter,
}

/// Everything the player's dynamic body starts with.
#[derive(Clone, Copy, Debug, PartialEq, Eq, Structural)]
pub struct PlayerBundle {
    pub half_extents: Extents,
    pub external_force: Point,
    pub gravity_scale: u32,
    pub mass: u32,
    pub friction: Option<Friction>,
    pub sprite: Sprite,
    pub player: Player,
    pub grounded: bool,
}

impl PlayerBundle {
    /// A player at rest, not yet on the ground, with the player's material
    /// and a square collider and sprite.
    pub fn new() -> (r: Self)
        ensures
            r.half_extents == half_extents_of(FixtureKind::Player),
            r.external_force == (Point { x: 0, y: 0 }),
            r.gravity_scale == PLAYER_GRAVITY_SCALE,
            r.mass == PLAYER_MASS,
            r.friction == material_of(FixtureKind::Player).friction,
            r.sprite == (Sprite {
                color: Rgb { r: 300, g: 600, b: 1000 },
                size: Extents { width: PLAYER_HALF_SIZE, height: PLAYER_HALF_SIZE },
            }),
            !r.grounded,
    {
        PlayerBundle {
            half_extents: collider_half_extents(FixtureKind::Player),
            external_force: Point { x: 0, y: 0 },
            gravity_scale: PLAYER_GRAVITY_SCALE,
            mass: PLAYER_MASS,
            friction: material(FixtureKind::Player).friction,
            sprite: Sprite {
                color: Rgb { r: 300, g: 600, b: 1000 },
                size: Extents { width: PLAYER_HALF_SIZE, height: PLAYER_HALF_SIZE },
            },
            player: Player,
            grounded: false,
        }
    }
}

} // verus!
