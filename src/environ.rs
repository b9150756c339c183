//! The static boundary of the world: ground, two walls and a ceiling.
use vstd::prelude::*;
use crate::physics::{
    collider_half_extents, half_extents_of, material, material_of, Extents, FixtureKind, Point, Rgb,
    BOUNDARY_THICKNESS, WALL_DISTANCE_FROM_CENTER, WINDOW_HEIGHT,
};
use crate::scene::{Body, Node, Part, Scene, Sprite};

verus! {

pub open spec fn boundary_body(kind: FixtureKind) -> Part {
    Part::Body(Body { kind, material: material_of(kind), half_extents: half_extents_of(kind) })
}

pub open spec fn wall_sprite() -> Option<Sprite> {
    Some(Sprite {
        color: Rgb { r: 500, g: 500, b: 500 },
        size: Extents { width: (BOUNDARY_THICKNESS * 200) as i64, height: WINDOW_HEIGHT },
    })
}

/// The four boundary bodies, in the order they are spawned: ground at the
/// bottom of the window, left wall, right wall, ceiling at the top.
pub open spec fn environment_nodes() -> Seq<Option<Node>> {
    seq![
        Some(Node {
            parent: None,
            translation: Point { x: 0, y: (-WINDOW_HEIGHT / 2 + BOUNDARY_THICKNESS) as i64 },
            part: boundary_body(FixtureKind::Ground),
            sprite: None,
        }),
        Some(Node {
            parent: None,
            translation: Point { x: (-WALL_DISTANCE_FROM_CENTER) as i64, y: 0 },
            part: boundary_body(FixtureKind::Wall),
            sprite: wall_sprite(),
        }),
        Some(Node {
            parent: None,
            translation: Point { x: WALL_DISTANCE_FROM_CENTER, y: 0 },
            part: boundary_body(FixtureKind::Wall),
            sprite: wall_sprite(),
        }),
        Some(Node {
            parent: None,
            translation: Point { x: 0, y: (WINDOW_HEIGHT / 2 - BOUNDARY_THICKNESS) as i64 },
            part: boundary_body(FixtureKind::Ceiling),
            sprite: None,
        }),
    ]
}

fn boundary(kind: FixtureKind) -> (r: Part)
    ensures
        r == boundary_body(kind),
{
    Part::Body(Body { kind, material: material(kind), half_extents: collider_half_extents(kind) })
}

fn wall_look() -> (r: Option<Sprite>)
    ensures
        r == wall_sprite(),
{
    Some(Sprite {
        color: Rgb { r: 500, g: 500, b: 500 },
        size: Extents { width: BOUNDARY_THICKNESS * 200, height: WINDOW_HEIGHT },
    })
}

/// Spawns the static boundary of the world at the end of the scene.
pub fn setup_environment(scene: &mut Scene)
    requires
        old(scene).wf(),
    ensures
        final(scene)@ == old(scene)@ + environment_nodes(),
        final(scene).wf(),
{
    let ghost s0 = scene@;
    scene.spawn(Node {
        parent: None,
        translation: Point { x: 0, y: -WINDOW_HEIGHT / 2 + BOUNDARY_THICKNESS },
        part: boundary(FixtureKind::Ground),
        sprite: None,
    });
    scene.spawn(Node {
        parent: None,
        translation: Point { x: -WALL_DISTANCE_FROM_CENTER, y: 0 },
        part: boundary(FixtureKind::Wall),
        sprite: wall_look(),
    });
    scene.spawn(Node {
        parent: None,
        translation: Point { x: WALL_DISTANCE_FROM_CENTER, y: 0 },
        part: boundary(FixtureKind::Wall),
        sprite: wall_look(),
    });
    scene.spawn(Node {
        parent: None,
        translation: Point { x: 0, y: WINDOW_HEIGHT / 2 - BOUNDARY_THICKNESS },
        part: boundary(FixtureKind::Ceiling),
        sprite: None,
    });
    assert(scene@ =~= s0 + environment_nodes());
}

} // verus!
