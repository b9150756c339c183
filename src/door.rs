//! Door platforms: the fixture hierarchy built for each room, and the
//! reconciler that rebuilds all of them whenever the rooms were written.
use vstd::prelude::*;
use crate::physics::{
    collider_half_extents, half_extents_of, material, material_of, Extents, FixtureKind, Point, Rgb,
    PLATFORM_HEIGHT, PLATFORM_WIDTH,
};
use crate::rooms::{RoomDescriptor, RoomStateStore};
use crate::scene::{
    can_attach, collect, despawned, family_of, Body, Door, Family, Label, Node, Part, PointLight,
    Scene, Sprite,
};

verus! {

/// Font size of a platform's label.
pub const LABEL_FONT_SIZE: u32 = 14;

/// Height of the light relative to the platform's centre.
pub const LIGHT_OFFSET_Y: i64 = PLATFORM_WIDTH - 2 * PLATFORM_HEIGHT;

/// Intensity of a platform's light (1.5).
pub const LIGHT_INTENSITY: u32 = 1500;

/// Radius of a platform's light (600 units).
pub const LIGHT_RADIUS: i64 = 600_000;

/// Falloff of a platform's light (2.0).
pub const LIGHT_FALLOFF: u32 = 2000;

pub open spec fn platform_grey() -> Rgb {
    Rgb { r: 500, g: 500, b: 500 }
}

pub open spec fn door_grey() -> Rgb {
    Rgb { r: 300, g: 300, b: 300 }
}

/// Tailwind's blue 600 (#2563eb).
pub open spec fn light_blue() -> Rgb {
    Rgb { r: 145, g: 388, b: 922 }
}

pub open spec fn platform_node(d: RoomDescriptor) -> Node {
    Node {
        parent: None,
        translation: d.position,
        part: Part::Body(Body {
            kind: FixtureKind::Platform,
            material: material_of(FixtureKind::Platform),
            half_extents: half_extents_of(FixtureKind::Platform),
        }),
        sprite: Some(Sprite { color: platform_grey(), size: Extents { width: PLATFORM_WIDTH, height: PLATFORM_HEIGHT } }),
    }
}

pub open spec fn label_node(d: RoomDescriptor, p: int) -> Node {
    Node {
        parent: Some(p as usize),
        translation: Point { x: 0, y: 0 },
        part: Part::Label(Label {
            text: d.room_name,
            font_size: LABEL_FONT_SIZE,
            bounds: Extents { width: PLATFORM_WIDTH, height: PLATFORM_HEIGHT },
        }),
        sprite: None,
    }
}

pub open spec fn door_of(d: RoomDescriptor) -> Door {
    Door { room_id: d.room_id, room_name: d.room_name }
}

pub open spec fn door_node(d: RoomDescriptor, p: int) -> Node {
    Node {
        parent: Some(p as usize),
        translation: Point { x: 0, y: (PLATFORM_HEIGHT / 2 + PLATFORM_WIDTH / 4) as i64 },
        part: Part::DoorTrigger(door_of(d)),
        sprite: Some(Sprite {
            color: door_grey(),
            size: Extents { width: (PLATFORM_WIDTH / 4) as i64, height: (PLATFORM_WIDTH / 2) as i64 },
        }),
    }
}

pub open spec fn light_node(p: int) -> Node {
    Node {
        parent: Some(p as usize),
        translation: Point { x: 0, y: LIGHT_OFFSET_Y },
        part: Part::Light(PointLight {
            intensity: LIGHT_INTENSITY,
            radius: LIGHT_RADIUS,
            falloff: LIGHT_FALLOFF,
            color: light_blue(),
        }),
        sprite: None,
    }
}

/// The four nodes of the fixture hierarchy of room `d`, when its platform
/// takes slot `p`: the platform, then its label, door trigger and light.
pub open spec fn fixture_nodes(d: RoomDescriptor, p: int) -> Seq<Option<Node>> {
    seq![Some(platform_node(d)), Some(label_node(d, p)), Some(door_node(d, p)), Some(light_node(p))]
}

/// The fixture hierarchies of `rooms`, in order, from slot `base` on.
pub open spec fn layout(rooms: Seq<RoomDescriptor>, base: int) -> Seq<Option<Node>>
    decreases rooms.len(),
{
    if rooms.len() == 0 {
        Seq::empty()
    } else {
        layout(rooms.drop_last(), base) + fixture_nodes(rooms.last(), base + 4 * (rooms.len() - 1))
    }
}

/// The slots after a rebuild from `rooms`: the fixtures torn down, then one
/// hierarchy per room appended in order.
pub open spec fn rebuilt(s: Seq<Option<Node>>, rooms: Seq<RoomDescriptor>) -> Seq<Option<Node>> {
    let kept = despawned(s, Family::Fixture);
    kept + layout(rooms, kept.len() as int)
}

pub open spec fn door_payload(n: Node) -> Option<Door> {
    match n.part {
        Part::DoorTrigger(d) => Some(d),
        _ => None,
    }
}

pub open spec fn platform_position(n: Node) -> Option<Point> {
    match n.part {
        Part::Body(b) => if b.kind == FixtureKind::Platform { Some(n.translation) } else { None },
        _ => None,
    }
}

pub open spec fn label_text(n: Node) -> Option<String> {
    match n.part {
        Part::Label(l) => Some(l.text),
        _ => None,
    }
}

/// The door payloads of the live nodes of `s`, in slot order.
pub open spec fn doors(s: Seq<Option<Node>>) -> Seq<Door> {
    collect(s, |n: Node| door_payload(n))
}

/// The positions of the live platforms of `s`, in slot order.
pub open spec fn platforms(s: Seq<Option<Node>>) -> Seq<Point> {
    collect(s, |n: Node| platform_position(n))
}

/// The texts of the live platform labels of `s`, in slot order.
pub open spec fn labels(s: Seq<Option<Node>>) -> Seq<String> {
    collect(s, |n: Node| label_text(n))
}

pub proof fn lemma_collect_concat<T>(a: Seq<Option<Node>>, b: Seq<Option<Node>>, f: spec_fn(Node) -> Option<T>)
    ensures
        collect(a + b, f) == collect(a, f) + collect(b, f),
    decreases b.len(),
{
    if b.len() == 0 {
        assert(a + b =~= a);
        assert(collect(a, f) + collect(b, f) =~= collect(a, f));
    } else {
        assert((a + b).drop_last() =~= a + b.drop_last());
        lemma_collect_concat(a, b.drop_last(), f);
        assert((a + b).last() == b.last());
        let r = collect(b.drop_last(), f);
        match b.last() {
            Some(n) => match f(n) {
                Some(t) => {
                    assert((collect(a, f) + r).push(t) =~= collect(a, f) + r.push(t));
                },
                None => {},
            },
            None => {},
        }
    }
}

pub proof fn lemma_collect_nothing<T>(s: Seq<Option<Node>>, f: spec_fn(Node) -> Option<T>)
    requires
        forall|i: int| 0 <= i < s.len() && #[trigger] s[i] is Some ==> f(s[i]->0) is None,
    ensures
        collect(s, f) == Seq::<T>::empty(),
    decreases s.len(),
{
    if s.len() > 0 {
        assert forall|i: int| 0 <= i < s.drop_last().len() && #[trigger] s.drop_last()[i] is Some
            implies f(s.drop_last()[i]->0) is None by {
            assert(s.drop_last()[i] == s[i]);
        }
        lemma_collect_nothing(s.drop_last(), f);
        assert(s.last() == s[s.len() - 1]);
    }
}

pub proof fn lemma_layout_len(rooms: Seq<RoomDescriptor>, base: int)
    ensures
        layout(rooms, base).len() == 4 * rooms.len(),
    decreases rooms.len(),
{
    if rooms.len() > 0 {
        lemma_layout_len(rooms.drop_last(), base);
    }
}

pub proof fn lemma_fixture_nodes_collect(d: RoomDescriptor, p: int)
    ensures
        doors(fixture_nodes(d, p)) == seq![door_of(d)],
        platforms(fixture_nodes(d, p)) == seq![d.position],
        labels(fixture_nodes(d, p)) == seq![d.room_name],
{
    let s = fixture_nodes(d, p);
    assert(s.drop_last().drop_last().drop_last().drop_last() =~= Seq::<Option<Node>>::empty());
    assert(s.drop_last().drop_last().drop_last() =~= seq![Some(platform_node(d))]);
    assert(s.drop_last().drop_last() =~= seq![Some(platform_node(d)), Some(label_node(d, p))]);
    assert(s.drop_last() =~= seq![Some(platform_node(d)), Some(label_node(d, p)), Some(door_node(d, p))]);
    reveal_with_fuel(collect, 5);
    assert(doors(s) =~= seq![door_of(d)]);
    assert(platforms(s) =~= seq![d.position]);
    assert(labels(s) =~= seq![d.room_name]);
}

pub proof fn lemma_layout_collect(rooms: Seq<RoomDescriptor>, base: int)
    ensures
        doors(layout(rooms, base)) == rooms.map_values(|d: RoomDescriptor| door_of(d)),
        platforms(layout(rooms, base)) == rooms.map_values(|d: RoomDescriptor| d.position),
        labels(layout(rooms, base)) == rooms.map_values(|d: RoomDescriptor| d.room_name),
    decreases rooms.len(),
{
    if rooms.len() == 0 {
        assert(rooms.map_values(|d: RoomDescriptor| door_of(d)) =~= Seq::<Door>::empty());
        assert(rooms.map_values(|d: RoomDescriptor| d.position) =~= Seq::<Point>::empty());
        assert(rooms.map_values(|d: RoomDescriptor| d.room_name) =~= Seq::<String>::empty());
    } else {
        let front = rooms.drop_last();
        let p = base + 4 * (rooms.len() - 1);
        lemma_layout_collect(front, base);
        lemma_fixture_nodes_collect(rooms.last(), p);
        lemma_collect_concat(layout(front, base), fixture_nodes(rooms.last(), p), |n: Node| door_payload(n));
        lemma_collect_concat(layout(front, base), fixture_nodes(rooms.last(), p), |n: Node| platform_position(n));
        lemma_collect_concat(layout(front, base), fixture_nodes(rooms.last(), p), |n: Node| label_text(n));
        assert(rooms.map_values(|d: RoomDescriptor| door_of(d))
            =~= front.map_values(|d: RoomDescriptor| door_of(d)) + seq![door_of(rooms.last())]);
        assert(rooms.map_values(|d: RoomDescriptor| d.position)
            =~= front.map_values(|d: RoomDescriptor| d.position) + seq![rooms.last().position]);
        assert(rooms.map_values(|d: RoomDescriptor| d.room_name)
            =~= front.map_values(|d: RoomDescriptor| d.room_name) + seq![rooms.last().room_name]);
    }
}

/// After a rebuild from `rooms`, the live door triggers carry exactly the
/// rooms' identifiers and names, the live platforms stand at the rooms'
/// positions and the live labels show the rooms' names: one hierarchy per
/// room, in the rooms' order.
pub proof fn lemma_rebuild_matches_rooms(s: Seq<Option<Node>>, rooms: Seq<RoomDescriptor>)
    requires
        crate::scene::wf_slots(s),
    ensures
        doors(rebuilt(s, rooms)) == rooms.map_values(|d: RoomDescriptor| door_of(d)),
        platforms(rebuilt(s, rooms)) == rooms.map_values(|d: RoomDescriptor| d.position),
        labels(rebuilt(s, rooms)) == rooms.map_values(|d: RoomDescriptor| d.room_name),
        doors(rebuilt(s, rooms)).len() == rooms.len(),
        platforms(rebuilt(s, rooms)).len() == rooms.len(),
{
    let kept = despawned(s, Family::Fixture);
    let base = kept.len() as int;
    crate::scene::lemma_despawn_leaves_no_orphans(s, Family::Fixture);
    lemma_collect_nothing(kept, |n: Node| door_payload(n));
    lemma_collect_nothing(kept, |n: Node| platform_position(n));
    lemma_collect_nothing(kept, |n: Node| label_text(n));
    lemma_collect_concat(kept, layout(rooms, base), |n: Node| door_payload(n));
    lemma_collect_concat(kept, layout(rooms, base), |n: Node| platform_position(n));
    lemma_collect_concat(kept, layout(rooms, base), |n: Node| label_text(n));
    lemma_layout_collect(rooms, base);
    assert(doors(rebuilt(s, rooms)) =~= doors(layout(rooms, base)));
    assert(platforms(rebuilt(s, rooms)) =~= platforms(layout(rooms, base)));
    assert(labels(rebuilt(s, rooms)) =~= labels(layout(rooms, base)));
}

fn despawn_existing_platforms(scene: &mut Scene)
    requires
        old(scene).wf(),
    ensures
        final(scene)@ == despawned(old(scene)@, Family::Fixture),
        final(scene).wf(),
{
    scene.despawn_family(Family::Fixture);
}

/// Builds the fixture hierarchy of room `d` at the end of the scene: the
/// platform body, then its label, door trigger and light attached to it.
fn spawn_platform(scene: &mut Scene, d: &RoomDescriptor)
    requires
        old(scene).wf(),
    ensures
        final(scene)@ == old(scene)@ + fixture_nodes(*d, old(scene)@.len() as int),
        final(scene).wf(),
{
    let ghost s0 = scene@;
    let body = Body {
        kind: FixtureKind::Platform,
        material: material(FixtureKind::Platform),
        half_extents: collider_half_extents(FixtureKind::Platform),
    };
    let platform = scene.spawn(Node {
        parent: None,
        translation: d.position,
        part: Part::Body(body),
        sprite: Some(Sprite {
            color: Rgb { r: 500, g: 500, b: 500 },
            size: Extents { width: PLATFORM_WIDTH, height: PLATFORM_HEIGHT },
        }),
    });
    let label = Node {
        parent: Some(platform),
        translation: Point { x: 0, y: 0 },
        part: Part::Label(Label {
            text: d.room_name.clone(),
            font_size: LABEL_FONT_SIZE,
            bounds: Extents { width: PLATFORM_WIDTH, height: PLATFORM_HEIGHT },
        }),
        sprite: None,
    };
    assert(can_attach(scene@, label)) by {
        assert(scene@[platform as int] == Some(platform_node(*d)));
    }
    scene.spawn(label);
    let door = Node {
        parent: Some(platform),
        translation: Point { x: 0, y: PLATFORM_HEIGHT / 2 + PLATFORM_WIDTH / 4 },
        part: Part::DoorTrigger(Door { room_id: d.room_id.clone(), room_name: d.room_name.clone() }),
        sprite: Some(Sprite {
            color: Rgb { r: 300, g: 300, b: 300 },
            size: Extents { width: PLATFORM_WIDTH / 4, height: PLATFORM_WIDTH / 2 },
        }),
    };
    assert(can_attach(scene@, door)) by {
        assert(scene@[platform as int] == Some(platform_node(*d)));
    }
    scene.spawn(door);
    let light = Node {
        parent: Some(platform),
        translation: Point { x: 0, y: LIGHT_OFFSET_Y },
        part: Part::Light(PointLight {
            intensity: LIGHT_INTENSITY,
            radius: LIGHT_RADIUS,
            falloff: LIGHT_FALLOFF,
            color: Rgb { r: 145, g: 388, b: 922 },
        }),
        sprite: None,
    };
    assert(can_attach(scene@, light)) by {
        assert(scene@[platform as int] == Some(platform_node(*d)));
    }
    scene.spawn(light);
    assert(scene@ =~= s0 + fixture_nodes(*d, s0.len() as int));
}

/// One pass of the reconciler. When the rooms were written since the last
/// pass, tears down every fixture hierarchy and builds one per room, in the
/// rooms' order, and returns `true`; otherwise changes nothing and returns
/// `false`.
pub fn spawn_platforms(store: &mut RoomStateStore, scene: &mut Scene) -> (r: bool)
    requires
        old(scene).wf(),
    ensures
        r == old(store).dirty(),
        final(store).rooms() == old(store).rooms(),
        !final(store).dirty(),
        !old(store).dirty() ==> final(scene)@ == old(scene)@,
        old(store).dirty() ==> final(scene)@ == rebuilt(old(scene)@, old(store).rooms()),
        old(store).dirty() ==> doors(final(scene)@) == old(store).rooms().map_values(|d: RoomDescriptor| door_of(d)),
        old(store).dirty() ==> platforms(final(scene)@) == old(store).rooms().map_values(|d: RoomDescriptor| d.position),
        final(scene).wf(),
{
    if !store.is_dirty() {
        return false;
    }
    despawn_existing_platforms(scene);
    let rooms = store.consume_and_clear();
    let ghost kept = scene@;
    let ghost base = kept.len() as int;
    let n = rooms.len();
    let mut i: usize = 0;
    while i < n
        invariant
            n == rooms@.len(),
            i <= n,
            scene.wf(),
            base == kept.len(),
            scene@ == kept + layout(rooms@.take(i as int), base),
        decreases n - i,
    {
        let ghost before = scene@;
        spawn_platform(scene, &rooms[i]);
        proof {
            let t = rooms@.take(i as int + 1);
            let l = layout(rooms@.take(i as int), base);
            let f = fixture_nodes(rooms@[i as int], base + 4 * i);
            assert(t.drop_last() =~= rooms@.take(i as int));
            assert(t.last() == rooms@[i as int]);
            assert(layout(t, base) == l + f);
            lemma_layout_len(rooms@.take(i as int), base);
            assert(before.len() == base + 4 * i);
            assert(scene@ == (kept + l) + f);
            assert(scene@ =~= kept + layout(t, base));
        }
        i += 1;
    }
    proof {
        assert(rooms@.take(n as int) =~= rooms@);
        lemma_rebuild_matches_rooms(old(scene)@, rooms@);
    }
    true
}

} // verus!
