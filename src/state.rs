//! The two-state game mode, the decisions taken on input, the simulation
//! time scale of each mode, and the pause overlay.
use vstd::prelude::*;
use crate::physics::{Extents, Point, Rgb};
use crate::door::{door_payload, doors, label_text, labels, lemma_collect_concat, platform_position, platforms};
use crate::scene::{
    cleared, despawned, lemma_collect_cleared, lemma_collect_trimmed, Family, Label, Node, Part, Scene, Sprite,
};

verus! {

/// Whether the game runs or is paused.
#[derive(Clone, Copy, Debug, PartialEq, Eq, Structural)]
pub enum GameState {
    InGame,
    Paused,
}

/// What the driver does after a pass over the input.
#[derive(Clone, Copy, Debug, PartialEq, Eq, Structural)]
pub enum InputOutcome {
    /// Nothing to do.
    Stay,
    /// Move to this state.
    Switch(GameState),
    /// Leave the game, with exit code 0.
    Quit,
}

/// Simulation time scale while running (1.0), in thousandths.
pub const TIME_SCALE_RUNNING: u32 = 1000;

/// Simulation time scale while paused (0.0).
pub const TIME_SCALE_PAUSED: u32 = 0;

/// Font size of the pause text.
pub const PAUSE_FONT_SIZE: u32 = 35;

/// Height of the pause box above the camera (150 units).
pub const PAUSE_BOX_OFFSET_Y: i64 = 150_000;

pub open spec fn toggled(state: GameState) -> GameState {
    match state {
        GameState::InGame => GameState::Paused,
        GameState::Paused => GameState::InGame,
    }
}

pub open spec fn time_scale_of(state: GameState) -> u32 {
    match state {
        GameState::Paused => TIME_SCALE_PAUSED,
        GameState::InGame => TIME_SCALE_RUNNING,
    }
}

/// Decides on one pass over the input: the pause key toggles the mode, and
/// otherwise the quit key leaves the game.
pub fn game_state_input_events(state: GameState, escape_just_pressed: bool, quit_just_pressed: bool) -> (r: InputOutcome)
    ensures
        escape_just_pressed ==> r == InputOutcome::Switch(toggled(state)),
        !escape_just_pressed && quit_just_pressed ==> r == InputOutcome::Quit,
        !escape_just_pressed && !quit_just_pressed ==> r == InputOutcome::Stay,
{
    if escape_just_pressed {
        match state {
            GameState::InGame => InputOutcome::Switch(GameState::Paused),
            GameState::Paused => InputOutcome::Switch(GameState::InGame),
        }
    } else if quit_just_pressed {
        InputOutcome::Quit
    } else {
        InputOutcome::Stay
    }
}

/// The simulation time scale for `state`: frozen while paused.
pub fn pause_game(state: GameState) -> (r: u32)
    ensures
        r == time_scale_of(state),
{
    match state {
        GameState::Paused => TIME_SCALE_PAUSED,
        GameState::InGame => TIME_SCALE_RUNNING,
    }
}

/// Toggling the mode twice comes back to it, and the time scale goes from
/// running to frozen and back.
pub proof fn lemma_toggle_twice(state: GameState)
    ensures
        toggled(toggled(state)) == state,
        time_scale_of(toggled(state)) != time_scale_of(state),
        time_scale_of(GameState::Paused) == 0,
        time_scale_of(GameState::InGame) == 1000,
{
}

pub open spec fn pause_box_size() -> Extents {
    Extents { width: 200_000, height: 50_000 }
}

/// The two overlay nodes for a camera at `camera`, when the box takes slot
/// `p`: the box above the camera, and the pause text attached to it.
pub open spec fn overlay_nodes(camera: Point, text: String, p: int) -> Seq<Option<Node>> {
    seq![
        Some(Node {
            parent: None,
            translation: Point { x: camera.x, y: (camera.y + PAUSE_BOX_OFFSET_Y) as i64 },
            part: Part::OverlayBox,
            sprite: Some(Sprite { color: Rgb { r: 250, g: 250, b: 750 }, size: pause_box_size() }),
        }),
        Some(Node {
            parent: Some(p as usize),
            translation: Point { x: 0, y: 0 },
            part: Part::OverlayText(Label { text, font_size: PAUSE_FONT_SIZE, bounds: pause_box_size() }),
            sprite: None,
        }),
    ]
}

/// Where the camera stands, or the origin when there is none.
pub open spec fn camera_or_origin(camera: Option<Point>) -> Point {
    match camera {
        Some(c) => c,
        None => Point { x: 0, y: 0 },
    }
}

/// Spawns the pause box above the camera, or above the origin when there is
/// no camera, with the pause text in it.
pub fn display_paused_text(scene: &mut Scene, camera: Option<Point>)
    requires
        old(scene).wf(),
        camera_or_origin(camera).y <= i64::MAX - PAUSE_BOX_OFFSET_Y,
    ensures
        final(scene).wf(),
        final(scene)@.len() == old(scene)@.len() + 2,
        exists|text: String| text@ == "Paused !    "@ && final(scene)@ == old(scene)@ + overlay_nodes(
            camera_or_origin(camera),
            text,
            old(scene)@.len() as int,
        ),
{
    let ghost s0 = scene@;
    let at = match camera {
        Some(c) => c,
        None => Point { x: 0, y: 0 },
    };
    let size = Extents { width: 200_000, height: 50_000 };
    let b = scene.spawn(Node {
        parent: None,
        translation: Point { x: at.x, y: at.y + PAUSE_BOX_OFFSET_Y },
        part: Part::OverlayBox,
        sprite: Some(Sprite { color: Rgb { r: 250, g: 250, b: 750 }, size }),
    });
    let text = "Paused !    ".to_owned();
    let t = Node {
        parent: Some(b),
        translation: Point { x: 0, y: 0 },
        part: Part::OverlayText(Label { text, font_size: PAUSE_FONT_SIZE, bounds: size }),
        sprite: None,
    };
    assert(scene@[b as int] is Some);
    scene.spawn(t);
    assert(scene@ =~= s0 + overlay_nodes(at, t.part->OverlayText_0.text, s0.len() as int));
}

/// Removes the pause box and its text.
pub fn remove_pause_text(scene: &mut Scene)
    requires
        old(scene).wf(),
    ensures
        final(scene)@ == despawned(old(scene)@, Family::Overlay),
        final(scene).wf(),
{
    scene.despawn_family(Family::Overlay);
}

/// Showing the pause overlay, and removing it, leaves the live door
/// triggers, platforms and labels as they were.
pub proof fn lemma_pause_overlay_keeps_fixtures(s: Seq<Option<Node>>, camera: Point, text: String)
    ensures
        doors(s + overlay_nodes(camera, text, s.len() as int)) == doors(s),
        platforms(s + overlay_nodes(camera, text, s.len() as int)) == platforms(s),
        labels(s + overlay_nodes(camera, text, s.len() as int)) == labels(s),
        doors(despawned(s, Family::Overlay)) == doors(s),
        platforms(despawned(s, Family::Overlay)) == platforms(s),
        labels(despawned(s, Family::Overlay)) == labels(s),
{
    let o = overlay_nodes(camera, text, s.len() as int);
    assert(o.drop_last().drop_last() =~= Seq::<Option<Node>>::empty());
    reveal_with_fuel(crate::scene::collect, 3);
    lemma_collect_concat(s, o, |n: Node| door_payload(n));
    lemma_collect_concat(s, o, |n: Node| platform_position(n));
    lemma_collect_concat(s, o, |n: Node| label_text(n));
    assert(doors(s) + doors(o) =~= doors(s));
    assert(platforms(s) + platforms(o) =~= platforms(s));
    assert(labels(s) + labels(o) =~= labels(s));
    lemma_collect_cleared(s, Family::Overlay, |n: Node| door_payload(n));
    lemma_collect_cleared(s, Family::Overlay, |n: Node| platform_position(n));
    lemma_collect_cleared(s, Family::Overlay, |n: Node| label_text(n));
    lemma_collect_trimmed(cleared(s, Family::Overlay), |n: Node| door_payload(n));
    lemma_collect_trimmed(cleared(s, Family::Overlay), |n: Node| platform_position(n));
    lemma_collect_trimmed(cleared(s, Family::Overlay), |n: Node| label_text(n));
}

} // verus!
