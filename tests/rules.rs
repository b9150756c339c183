use platformer_world::environ::setup_environment;
use platformer_world::physics::{
    collider_half_extents, combine, material, CoefficientCombine, Extents, FixtureKind, Friction, Point,
    Restitution, BOUNCE_EFFECT,
};
use platformer_world::player::PlayerBundle;
use platformer_world::scene::{Part, Scene};
use platformer_world::state::{game_state_input_events, pause_game, GameState, InputOutcome};

#[test]
fn platform_material() {
    let m = material(FixtureKind::Platform);
    assert_eq!(
        m.friction,
        Some(Friction { dynamic_coefficient: 600, static_coefficient: 800, combine_rule: CoefficientCombine::Average })
    );
    assert_eq!(m.restitution, Some(Restitution { coefficient: BOUNCE_EFFECT, combine_rule: CoefficientCombine::Max }));
    assert_eq!(BOUNCE_EFFECT, 400);
}

#[test]
fn ground_material() {
    let m = material(FixtureKind::Ground);
    assert_eq!(
        m.friction,
        Some(Friction { dynamic_coefficient: 800, static_coefficient: 900, combine_rule: CoefficientCombine::Average })
    );
    assert_eq!(m.restitution, Some(Restitution { coefficient: 400, combine_rule: CoefficientCombine::Max }));
}

#[test]
fn wall_ceiling_and_player_materials() {
    let w = material(FixtureKind::Wall);
    assert_eq!(w.friction.unwrap().dynamic_coefficient, 500);
    assert_eq!(w.friction.unwrap().static_coefficient, 600);
    let c = material(FixtureKind::Ceiling);
    assert_eq!(c.friction, None);
    assert_eq!(c.restitution.unwrap().coefficient, 400);
    let p = material(FixtureKind::Player);
    assert_eq!(p.friction.unwrap().dynamic_coefficient, 300);
    assert_eq!(p.restitution, None);
}

#[test]
fn combine_rules() {
    assert_eq!(combine(CoefficientCombine::Average, 600, 800), 700);
    assert_eq!(combine(CoefficientCombine::Average, 1, 2), 1);
    assert_eq!(combine(CoefficientCombine::Max, 300, 400), 400);
    assert_eq!(combine(CoefficientCombine::Max, u32::MAX, u32::MAX), u32::MAX);
    assert_eq!(combine(CoefficientCombine::Average, u32::MAX, u32::MAX), u32::MAX);
}

#[test]
fn collider_sizes() {
    assert_eq!(collider_half_extents(FixtureKind::Platform), Extents { width: 80_000, height: 10_000 });
    assert_eq!(collider_half_extents(FixtureKind::Ground), Extents { width: 1_500_000, height: 100 });
    assert_eq!(collider_half_extents(FixtureKind::Wall), Extents { width: 100, height: 400_000 });
    assert_eq!(collider_half_extents(FixtureKind::Player), Extents { width: 40_000, height: 40_000 });
}

#[test]
fn environment_has_four_static_bodies() {
    let mut scene = Scene::new();
    setup_environment(&mut scene);
    assert_eq!(scene.len(), 4);
    let ground = scene.slot(0).clone().unwrap();
    assert_eq!(ground.translation, Point { x: 0, y: -399_900 });
    let left = scene.slot(1).clone().unwrap();
    assert_eq!(left.translation, Point { x: -1_500_000, y: 0 });
    assert_eq!(left.sprite.unwrap().size, Extents { width: 20_000, height: 800_000 });
    let right = scene.slot(2).clone().unwrap();
    assert_eq!(right.translation, Point { x: 1_500_000, y: 0 });
    let ceiling = scene.slot(3).clone().unwrap();
    assert_eq!(ceiling.translation, Point { x: 0, y: 399_900 });
    match ceiling.part {
        Part::Body(b) => assert_eq!(b.kind, FixtureKind::Ceiling),
        _ => panic!("expected a body"),
    }
}

#[test]
fn toggling_pause_freezes_and_resumes_time() {
    let state = GameState::InGame;
    assert_eq!(pause_game(state), 1000);
    let paused = match game_state_input_events(state, true, false) {
        InputOutcome::Switch(s) => s,
        other => panic!("unexpected {:?}", other),
    };
    assert_eq!(paused, GameState::Paused);
    assert_eq!(pause_game(paused), 0);
    let resumed = match game_state_input_events(paused, true, false) {
        InputOutcome::Switch(s) => s,
        other => panic!("unexpected {:?}", other),
    };
    assert_eq!(resumed, GameState::InGame);
    assert_eq!(pause_game(resumed), 1000);
}

#[test]
fn quit_and_idle_input() {
    assert_eq!(game_state_input_events(GameState::InGame, false, true), InputOutcome::Quit);
    assert_eq!(game_state_input_events(GameState::Paused, false, false), InputOutcome::Stay);
    assert_eq!(game_state_input_events(GameState::Paused, true, true), InputOutcome::Switch(GameState::InGame));
}

#[test]
fn new_player() {
    let p = PlayerBundle::new();
    assert_eq!(p.half_extents, Extents { width: 40_000, height: 40_000 });
    assert_eq!(p.gravity_scale, 25_000);
    assert_eq!(p.mass, 1000);
    assert_eq!(p.friction.unwrap().static_coefficient, 500);
    assert!(!p.grounded);
}
