//! The live scene: an arena of node slots, each node optionally attached to
//! a root node by the root's slot index.
use vstd::prelude::*;
use crate::physics::{Extents, FixtureKind, PhysicsMaterial, Point, Rgb};

verus! {

/// A static physics body with its collider and material.
#[derive(Clone, Copy, Debug, PartialEq, Eq, Structural)]
pub struct Body {
    pub kind: FixtureKind,
    pub material: PhysicsMaterial,
    pub half_extents: Extents,
}

/// A coloured rectangle drawn at a node.
#[derive(Clone, Copy, Debug, PartialEq, Eq, Structural)]
pub struct Sprite {
    pub color: Rgb,
    pub size: Extents,
}

/// Text drawn at a node, word-wrapped within `bounds`.
#[derive(Clone, Debug, PartialEq, Eq)]
pub struct Label {
    pub text: String,
    pub font_size: u32,
    pub bounds: Extents,
}

/// The room a door trigger leads to.
#[derive(Clone, Debug, PartialEq, Eq)]
pub struct Door {
    pub room_id: String,
    pub room_name: String,
}

/// An omnidirectional light; intensity and falloff in thousandths.
#[derive(Clone, Copy, Debug, PartialEq, Eq, Structural)]
pub struct PointLight {
    pub intensity: u32,
    pub radius: i64,
    pub falloff: u32,
    pub color: Rgb,
}

/// What a node is.
#[derive(Clone, Debug, PartialEq, Eq)]
pub enum Part {
    Body(Body),
    Label(Label),
    DoorTrigger(Door),
    Light(PointLight),
    OverlayBox,
    OverlayText(Label),
}

/// The lifecycles that nodes belong to; each is torn down as a whole.
#[derive(Clone, Copy, Debug, PartialEq, Eq, Structural)]
pub enum Family {
    Environment,
    Fixture,
    Actor,
    Overlay,
}

/// A node of the scene. `translation` is in world space for a root and
/// relative to the parent for an attached node.
#[derive(Clone, Debug, PartialEq, Eq)]
pub struct Node {
    pub parent: Option<usize>,
    pub translation: Point,
    pub part: Part,
    pub sprite: Option<Sprite>,
}

pub open spec fn family_of(part: Part) -> Family {
    match part {
        Part::Body(b) => match b.kind {
            FixtureKind::Platform => Family::Fixture,
            FixtureKind::Player => Family::Actor,
            _ => Family::Environment,
        },
        Part::Label(_) => Family::Fixture,
        Part::DoorTrigger(_) => Family::Fixture,
        Part::Light(_) => Family::Fixture,
        Part::OverlayBox => Family::Overlay,
        Part::OverlayText(_) => Family::Overlay,
    }
}

impl Part {
    /// The lifecycle that a node of this part belongs to.
    pub fn family(&self) -> (r: Family)
        ensures
            r == family_of(*self),
    {
        match self {
            Part::Body(b) => match b.kind {
                FixtureKind::Platform => Family::Fixture,
                FixtureKind::Player => Family::Actor,
                _ => Family::Environment,
            },
            Part::Label(_) => Family::Fixture,
            Part::DoorTrigger(_) => Family::Fixture,
            Part::Light(_) => Family::Fixture,
            Part::OverlayBox => Family::Overlay,
            Part::OverlayText(_) => Family::Overlay,
        }
    }
}

/// Whether `node` may be added at the end of the slots `s`: a node with a
/// parent needs a live root of its own family there.
pub open spec fn can_attach(s: Seq<Option<Node>>, node: Node) -> bool {
    node.parent is Some ==> {
        let p = node.parent->0 as int;
        &&& p < s.len()
        &&& s[p] is Some
        &&& s[p]->0.parent is None
        &&& family_of(s[p]->0.part) == family_of(node.part)
    }
}

/// Every live node with a parent points to an earlier live root of its own
/// family: no node is orphaned and hierarchies are one level deep.
pub open spec fn wf_slots(s: Seq<Option<Node>>) -> bool {
    forall|i: int| 0 <= i < s.len() && #[trigger] s[i] is Some ==> {
        &&& can_attach(s.take(i), s[i]->0)
    }
}

/// The slots with every node of family `fam` freed.
pub open spec fn cleared(s: Seq<Option<Node>>, fam: Family) -> Seq<Option<Node>> {
    Seq::new(s.len(), |i: int| if s[i] is Some && family_of(s[i]->0.part) == fam { None } else { s[i] })
}

/// The slots without their trailing free slots.
pub open spec fn trimmed(s: Seq<Option<Node>>) -> Seq<Option<Node>>
    decreases s.len(),
{
    if s.len() > 0 && s.last() is None {
        trimmed(s.drop_last())
    } else {
        s
    }
}

/// The slots after a despawn pass over family `fam`.
pub open spec fn despawned(s: Seq<Option<Node>>, fam: Family) -> Seq<Option<Node>> {
    trimmed(cleared(s, fam))
}

/// What `f` picks out of the live nodes of `s`, in slot order.
pub open spec fn collect<T>(s: Seq<Option<Node>>, f: spec_fn(Node) -> Option<T>) -> Seq<T>
    decreases s.len(),
{
    if s.len() == 0 {
        Seq::empty()
    } else {
        let rest = collect(s.drop_last(), f);
        match s.last() {
            Some(n) => match f(n) {
                Some(t) => rest.push(t),
                None => rest,
            },
            None => rest,
        }
    }
}

pub proof fn lemma_collect_trimmed<T>(s: Seq<Option<Node>>, f: spec_fn(Node) -> Option<T>)
    ensures
        collect(trimmed(s), f) == collect(s, f),
    decreases s.len(),
{
    if s.len() > 0 && s.last() is None {
        lemma_collect_trimmed(s.drop_last(), f);
    }
}

pub proof fn lemma_collect_cleared<T>(s: Seq<Option<Node>>, fam: Family, f: spec_fn(Node) -> Option<T>)
    requires
        forall|n: Node| family_of(n.part) == fam ==> #[trigger] f(n) is None,
    ensures
        collect(cleared(s, fam), f) == collect(s, f),
    decreases s.len(),
{
    if s.len() > 0 {
        assert(cleared(s, fam).drop_last() =~= cleared(s.drop_last(), fam));
        lemma_collect_cleared(s.drop_last(), fam, f);
    }
}

pub proof fn lemma_trimmed_prefix(s: Seq<Option<Node>>)
    ensures
        trimmed(s).len() <= s.len(),
        trimmed(s) == s.take(trimmed(s).len() as int),
        forall|i: int| trimmed(s).len() <= i < s.len() ==> s[i] is None,
        trimmed(s).len() == 0 || trimmed(s).last() is Some,
    decreases s.len(),
{
    if s.len() > 0 && s.last() is None {
        lemma_trimmed_prefix(s.drop_last());
        let t = trimmed(s.drop_last());
        assert(t == s.take(t.len() as int)) by {
            assert(s.drop_last().take(t.len() as int) =~= s.take(t.len() as int));
        }
        assert forall|i: int| t.len() <= i < s.len() implies s[i] is None by {
            if i < s.len() - 1 {
                assert(s.drop_last()[i] == s[i]);
            }
        }
    } else {
        assert(s.take(s.len() as int) =~= s);
    }
}

pub proof fn lemma_wf_prefix(s: Seq<Option<Node>>, k: int)
    requires
        wf_slots(s),
        0 <= k <= s.len(),
    ensures
        wf_slots(s.take(k)),
{
    let t = s.take(k);
    assert forall|i: int| 0 <= i < t.len() && #[trigger] t[i] is Some implies can_attach(t.take(i), t[i]->0) by {
        assert(s[i] is Some);
        assert(t.take(i) =~= s.take(i));
    }
}

pub proof fn lemma_wf_cleared(s: Seq<Option<Node>>, fam: Family)
    requires
        wf_slots(s),
    ensures
        wf_slots(cleared(s, fam)),
{
    let c = cleared(s, fam);
    assert forall|i: int| 0 <= i < c.len() && #[trigger] c[i] is Some implies can_attach(c.take(i), c[i]->0) by {
        assert(s[i] is Some);
        assert(can_attach(s.take(i), s[i]->0));
        if s[i]->0.parent is Some {
            let p = s[i]->0.parent->0 as int;
            assert(s.take(i)[p] == s[p]);
            assert(c.take(i)[p] == c[p]);
        }
    }
}

/// A despawn pass over a family leaves a well-formed scene in which no node
/// of that family is live, so no node is left without its parent.
pub proof fn lemma_despawn_leaves_no_orphans(s: Seq<Option<Node>>, fam: Family)
    requires
        wf_slots(s),
    ensures
        wf_slots(despawned(s, fam)),
        forall|i: int| 0 <= i < despawned(s, fam).len() && #[trigger] despawned(s, fam)[i] is Some
            ==> family_of(despawned(s, fam)[i]->0.part) != fam,
        forall|i: int| 0 <= i < despawned(s, fam).len() && #[trigger] despawned(s, fam)[i] is Some
            ==> despawned(s, fam)[i] == s[i],
{
    let c = cleared(s, fam);
    lemma_wf_cleared(s, fam);
    lemma_trimmed_prefix(c);
    lemma_wf_prefix(c, trimmed(c).len() as int);
    assert forall|i: int| 0 <= i < despawned(s, fam).len() && #[trigger] despawned(s, fam)[i] is Some
        implies family_of(despawned(s, fam)[i]->0.part) != fam && despawned(s, fam)[i] == s[i] by {
        assert(despawned(s, fam)[i] == c[i]);
    }
}

/// The scene: slots that hold live nodes or are free.
pub struct Scene {
    slots: Vec<Option<Node>>,
}

impl View for Scene {
    type V = Seq<Option<Node>>;

    closed spec fn view(&self) -> Seq<Option<Node>> {
        self.slots@
    }
}

impl Scene {
    pub open spec fn wf(&self) -> bool {
        wf_slots(self@)
    }

    /// An empty scene.
    pub fn new() -> (r: Self)
        ensures
            r@ == Seq::<Option<Node>>::empty(),
            r.wf(),
    {
        Scene { slots: Vec::new() }
    }

    /// The number of slots, live or free.
    pub fn len(&self) -> (r: usize)
        ensures
            r == self@.len(),
    {
        self.slots.len()
    }

    /// The slot at index `i`.
    pub fn slot(&self, i: usize) -> (r: &Option<Node>)
        requires
            i < self@.len(),
        ensures
            *r == self@[i as int],
    {
        &self.slots[i]
    }

    /// Adds `node` in a new slot at the end and returns its index.
    pub fn spawn(&mut self, node: Node) -> (r: usize)
        requires
            old(self).wf(),
            can_attach(old(self)@, node),
        ensures
            final(self)@ == old(self)@.push(Some(node)),
            r == old(self)@.len(),
            final(self).wf(),
    {
        let r = self.slots.len();
        self.slots.push(Some(node));
        proof {
            let s = self.slots@;
            assert forall|i: int| 0 <= i < s.len() && #[trigger] s[i] is Some implies can_attach(s.take(i), s[i]->0) by {
                if i < r {
                    assert(s.take(i) =~= old(self)@.take(i));
                } else {
                    assert(s.take(i) =~= old(self)@);
                }
            }
        }
        r
    }

    /// Frees every node of family `fam`, then the free slots at the end.
    pub fn despawn_family(&mut self, fam: Family)
        requires
            old(self).wf(),
        ensures
            final(self)@ == despawned(old(self)@, fam),
            final(self).wf(),
    {
        let ghost s0 = self@;
        let n = self.slots.len();
        let mut i: usize = 0;
        while i < n
            invariant
                n == s0.len(),
                i <= n,
                self.slots@.len() == n,
                forall|j: int| 0 <= j < i ==> self.slots@[j] == #[trigger] cleared(s0, fam)[j],
                forall|j: int| i <= j < n ==> self.slots@[j] == s0[j],
            decreases n - i,
        {
            let hit = match &self.slots[i] {
                Some(node) => node.part.family() == fam,
                None => false,
            };
            if hit {
                self.slots.set(i, None);
            }
            i += 1;
        }
        assert(self.slots@ =~= cleared(s0, fam));
        while self.slots.len() > 0 && self.slots[self.slots.len() - 1].is_none()
            invariant
                trimmed(self.slots@) == despawned(s0, fam),
            decreases self.slots@.len(),
        {
            self.slots.pop();
        }
        proof {
            lemma_despawn_leaves_no_orphans(s0, fam);
        }
    }
}

} // verus!
