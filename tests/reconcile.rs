use platformer_world::door::{spawn_platforms, LIGHT_OFFSET_Y};
use platformer_world::environ::setup_environment;
use platformer_world::physics::{Point, PLATFORM_HEIGHT, PLATFORM_WIDTH};
use platformer_world::rooms::{RoomDescriptor, RoomStateStore};
use platformer_world::scene::{Door, Family, Node, Part, Scene};
use platformer_world::state::{display_paused_text, remove_pause_text};

fn room(x: i64, y: i64, name: &str, id: &str) -> RoomDescriptor {
    RoomDescriptor { position: Point { x, y }, room_name: name.to_string(), room_id: id.to_string() }
}

fn live(scene: &Scene) -> Vec<(usize, Node)> {
    let mut out = Vec::new();
    for i in 0..scene.len() {
        if let Some(n) = scene.slot(i) {
            out.push((i, n.clone()));
        }
    }
    out
}

fn platforms(scene: &Scene) -> Vec<Point> {
    live(scene)
        .into_iter()
        .filter(|(_, n)| matches!(&n.part, Part::Body(b) if b.kind == platformer_world::physics::FixtureKind::Platform))
        .map(|(_, n)| n.translation)
        .collect()
}

fn doors(scene: &Scene) -> Vec<Door> {
    live(scene)
        .into_iter()
        .filter_map(|(_, n)| match n.part {
            Part::DoorTrigger(d) => Some(d),
            _ => None,
        })
        .collect()
}

fn labels(scene: &Scene) -> Vec<String> {
    live(scene)
        .into_iter()
        .filter_map(|(_, n)| match n.part {
            Part::Label(l) => Some(l.text),
            _ => None,
        })
        .collect()
}

fn count_family(scene: &Scene, fam: Family) -> usize {
    live(scene).iter().filter(|(_, n)| n.part.family() == fam).count()
}

fn no_orphans(scene: &Scene) -> bool {
    live(scene).iter().all(|(_, n)| match n.parent {
        None => true,
        Some(p) => p < scene.len() && scene.slot(p).is_some(),
    })
}

#[test]
fn two_rooms_build_two_hierarchies() {
    let mut store = RoomStateStore::new(Vec::new());
    let mut scene = Scene::new();
    spawn_platforms(&mut store, &mut scene);
    store.set_rooms(vec![room(100_000, 200_000, "Library", "r1"), room(-50_000, 0, "Armory", "r2")]);
    assert!(spawn_platforms(&mut store, &mut scene));
    assert_eq!(platforms(&scene), vec![Point { x: 100_000, y: 200_000 }, Point { x: -50_000, y: 0 }]);
    assert_eq!(
        doors(&scene),
        vec![
            Door { room_id: "r1".to_string(), room_name: "Library".to_string() },
            Door { room_id: "r2".to_string(), room_name: "Armory".to_string() },
        ]
    );
    assert_eq!(labels(&scene), vec!["Library".to_string(), "Armory".to_string()]);
    assert_eq!(count_family(&scene, Family::Fixture), 8);
}

#[test]
fn repeated_writes_collapse_into_one_rebuild() {
    let mut store = RoomStateStore::new(Vec::new());
    let mut scene = Scene::new();
    store.set_rooms(vec![room(1_000, 2_000, "Hall", "h")]);
    store.set_rooms(vec![room(1_000, 2_000, "Hall", "h")]);
    assert!(store.is_dirty());
    assert!(spawn_platforms(&mut store, &mut scene));
    assert!(!store.is_dirty());
    assert_eq!(platforms(&scene).len(), 1);
    assert!(!spawn_platforms(&mut store, &mut scene));
    assert_eq!(platforms(&scene).len(), 1);
}

#[test]
fn second_write_wins() {
    let mut store = RoomStateStore::new(Vec::new());
    let mut scene = Scene::new();
    store.set_rooms(vec![room(0, 0, "Old", "o")]);
    store.set_rooms(vec![room(5_000, 6_000, "New", "n"), room(7_000, 8_000, "Newer", "m")]);
    spawn_platforms(&mut store, &mut scene);
    assert_eq!(labels(&scene), vec!["New".to_string(), "Newer".to_string()]);
}

#[test]
fn clean_store_changes_nothing() {
    let mut store = RoomStateStore::new(vec![room(0, 0, "A", "a")]);
    let mut scene = Scene::new();
    assert!(spawn_platforms(&mut store, &mut scene));
    let before = live(&scene);
    assert!(!spawn_platforms(&mut store, &mut scene));
    assert_eq!(live(&scene), before);
    assert_eq!(scene.len(), 4);
}

#[test]
fn rebuild_replaces_old_fixtures_without_orphans() {
    let mut store = RoomStateStore::new(vec![room(0, 0, "A", "a"), room(1, 1, "B", "b"), room(2, 2, "C", "c")]);
    let mut scene = Scene::new();
    setup_environment(&mut scene);
    spawn_platforms(&mut store, &mut scene);
    assert_eq!(count_family(&scene, Family::Fixture), 12);
    store.set_rooms(vec![room(9, 9, "Z", "z")]);
    spawn_platforms(&mut store, &mut scene);
    assert_eq!(count_family(&scene, Family::Fixture), 4);
    assert_eq!(count_family(&scene, Family::Environment), 4);
    assert!(no_orphans(&scene));
    assert_eq!(doors(&scene), vec![Door { room_id: "z".to_string(), room_name: "Z".to_string() }]);
    assert_eq!(scene.len(), 8);
}

#[test]
fn empty_rooms_leave_no_fixtures() {
    let mut store = RoomStateStore::new(vec![room(0, 0, "A", "a")]);
    let mut scene = Scene::new();
    setup_environment(&mut scene);
    spawn_platforms(&mut store, &mut scene);
    store.set_rooms(Vec::new());
    assert!(spawn_platforms(&mut store, &mut scene));
    assert_eq!(count_family(&scene, Family::Fixture), 0);
    assert_eq!(scene.len(), 4);
    assert!(no_orphans(&scene));
}

#[test]
fn duplicate_room_ids_each_get_a_hierarchy() {
    let mut store = RoomStateStore::new(vec![room(0, 0, "A", "same"), room(3_000, 0, "B", "same")]);
    let mut scene = Scene::new();
    spawn_platforms(&mut store, &mut scene);
    assert_eq!(doors(&scene).len(), 2);
    assert_eq!(doors(&scene)[1].room_name, "B");
}

#[test]
fn child_offsets_are_local_to_the_platform() {
    let mut store = RoomStateStore::new(vec![room(123_000, -45_000, "A", "a")]);
    let mut scene = Scene::new();
    spawn_platforms(&mut store, &mut scene);
    let nodes = live(&scene);
    assert_eq!(nodes.len(), 4);
    assert_eq!(nodes[0].1.parent, None);
    assert_eq!(nodes[1].1.parent, Some(0));
    assert_eq!(nodes[1].1.translation, Point { x: 0, y: 0 });
    assert_eq!(nodes[2].1.translation, Point { x: 0, y: PLATFORM_HEIGHT / 2 + PLATFORM_WIDTH / 4 });
    assert_eq!(nodes[2].1.translation, Point { x: 0, y: 50_000 });
    assert_eq!(nodes[3].1.translation, Point { x: 0, y: LIGHT_OFFSET_Y });
    assert_eq!(LIGHT_OFFSET_Y, 120_000);
    match &nodes[3].1.part {
        Part::Light(l) => {
            assert_eq!(l.intensity, 1500);
            assert_eq!(l.radius, 600_000);
        }
        _ => panic!("expected a light"),
    }
}

#[test]
fn snapshot_keeps_dirty_and_consume_clears_it() {
    let mut store = RoomStateStore::new(vec![room(0, 0, "A", "a")]);
    assert_eq!(store.snapshot().len(), 1);
    assert!(store.is_dirty());
    let taken = store.consume_and_clear();
    assert_eq!(taken[0].room_id, "a");
    assert!(!store.is_dirty());
    assert_eq!(store.snapshot()[0].room_name, "A");
}

#[test]
fn pause_overlay_leaves_fixtures_alone() {
    let mut store = RoomStateStore::new(vec![room(0, 0, "A", "a")]);
    let mut scene = Scene::new();
    spawn_platforms(&mut store, &mut scene);
    let fixtures = doors(&scene);
    display_paused_text(&mut scene, Some(Point { x: 10_000, y: 20_000 }));
    assert_eq!(count_family(&scene, Family::Overlay), 2);
    let nodes = live(&scene);
    assert_eq!(nodes[4].1.translation, Point { x: 10_000, y: 170_000 });
    match &nodes[5].1.part {
        Part::OverlayText(l) => assert_eq!(l.text, "Paused !    "),
        _ => panic!("expected the pause text"),
    }
    assert!(!spawn_platforms(&mut store, &mut scene));
    remove_pause_text(&mut scene);
    assert_eq!(count_family(&scene, Family::Overlay), 0);
    assert_eq!(doors(&scene), fixtures);
    assert_eq!(scene.len(), 4);
}

#[test]
fn pause_box_without_camera_sits_above_origin() {
    let mut scene = Scene::new();
    display_paused_text(&mut scene, None);
    assert_eq!(live(&scene)[0].1.translation, Point { x: 0, y: 150_000 });
    assert_eq!(live(&scene)[1].1.parent, Some(0));
}

#[test]
fn overlay_under_fixtures_survives_rebuild() {
    let mut store = RoomStateStore::new(vec![room(0, 0, "A", "a")]);
    let mut scene = Scene::new();
    display_paused_text(&mut scene, None);
    spawn_platforms(&mut store, &mut scene);
    store.set_rooms(vec![room(1, 1, "B", "b")]);
    spawn_platforms(&mut store, &mut scene);
    assert_eq!(count_family(&scene, Family::Overlay), 2);
    assert!(no_orphans(&scene));
}

#[test]
fn despawning_twice_is_harmless() {
    let mut store = RoomStateStore::new(vec![room(0, 0, "A", "a")]);
    let mut scene = Scene::new();
    setup_environment(&mut scene);
    spawn_platforms(&mut store, &mut scene);
    scene.despawn_family(Family::Fixture);
    let once = live(&scene);
    scene.despawn_family(Family::Fixture);
    assert_eq!(live(&scene), once);
    assert_eq!(scene.len(), 4);
}
