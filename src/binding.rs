//! The one-shot binding between a unit and the sub-entity that carries its
//! animation player.
use vstd::prelude::*;

verus! {

/// Carried by a unit's animated sub-entity: the unit it belongs to, and
/// whether the unit has been told about this sub-entity yet.
#[derive(Clone, Copy, Debug, PartialEq, Eq, Structural)]
pub struct UnitAnim {
    pub main_entity: u64,
    pub added_ref_to_self_on_parent: bool,
}

/// The animation binding of a plum.
pub type PlumUnitAnim = UnitAnim;

/// The animation binding of a spider.
pub type SpiderUnitAnim = UnitAnim;

/// Carried by a unit: the sub-entity that plays its animations.
#[derive(Clone, Copy, Debug, PartialEq, Eq, Structural)]
pub struct UnitAnimChildRef(pub u64);

/// The child reference of a plum.
pub type PlumUnitAnimChildRef = UnitAnimChildRef;

/// The child reference of a spider.
pub type SpiderUnitAnimChildRef = UnitAnimChildRef;

/// Whether this tick adds the reference to the unit: only while the latch
/// is open and the unit exists.
pub open spec fn binds(a: UnitAnim, parent_alive: bool) -> bool {
    !a.added_ref_to_self_on_parent && parent_alive
}

/// The binding after one tick: the latch closes once the reference is added.
pub open spec fn bind_step(a: UnitAnim, parent_alive: bool) -> UnitAnim {
    UnitAnim { added_ref_to_self_on_parent: a.added_ref_to_self_on_parent || parent_alive, ..a }
}

/// How many times the reference is added over a run of ticks, given whether
/// the unit existed at each.
pub open spec fn binds_over(a: UnitAnim, ticks: Seq<bool>) -> nat
    decreases ticks.len(),
{
    if ticks.len() == 0 {
        0
    } else {
        (if binds(a, ticks[0]) {
            1nat
        } else {
            0nat
        }) + binds_over(bind_step(a, ticks[0]), ticks.subrange(1, ticks.len() as int))
    }
}

impl UnitAnim {
    /// The binding of a sub-entity to `main_entity`, latch open.
    pub fn new(main_entity: u64) -> (r: UnitAnim)
        ensures
            r.main_entity == main_entity,
            !r.added_ref_to_self_on_parent,
    {
        UnitAnim { main_entity, added_ref_to_self_on_parent: false }
    }

    /// One tick of the latch. Returns whether the caller adds the reference
    /// to the unit now.
    pub fn try_bind(&mut self, parent_alive: bool) -> (r: bool)
        ensures
            r == binds(*old(self), parent_alive),
            *final(self) == bind_step(*old(self), parent_alive),
    {
        if !self.added_ref_to_self_on_parent && parent_alive {
            self.added_ref_to_self_on_parent = true;
            true
        } else {
            false
        }
    }
}

/// The references added this tick, from binding `i` on: for each binding
/// that binds, its unit and a reference to the binding's own entity.
pub open spec fn binding_from(
    s: Seq<UnitAnim>,
    entities: Seq<u64>,
    alive: Seq<bool>,
    i: int,
) -> Seq<(u64, UnitAnimChildRef)>
    decreases s.len() - i,
{
    if i < 0 || i >= s.len() {
        Seq::empty()
    } else if binds(s[i], alive[i]) {
        seq![(s[i].main_entity, UnitAnimChildRef(entities[i]))] + binding_from(
            s,
            entities,
            alive,
            i + 1,
        )
    } else {
        binding_from(s, entities, alive, i + 1)
    }
}

/// Runs the latch of every binding for one tick. Binding `i` sits on entity
/// `entities[i]`, and `parent_alive[i]` says whether its unit exists.
/// Returns, for each unit that gets its child reference now, the unit and
/// the reference to add to it.
pub fn put_self_on_parent(
    anims: &mut Vec<UnitAnim>,
    entities: &Vec<u64>,
    parent_alive: &Vec<bool>,
) -> (r: Vec<(u64, UnitAnimChildRef)>)
    requires
        entities@.len() == old(anims)@.len(),
        parent_alive@.len() == old(anims)@.len(),
    ensures
        final(anims)@.len() == old(anims)@.len(),
        forall|j: int|
            0 <= j < old(anims)@.len() ==> #[trigger] final(anims)@[j] == bind_step(
                old(anims)@[j],
                parent_alive@[j],
            ),
        r@ == binding_from(old(anims)@, entities@, parent_alive@, 0),
{
    let ghost before = anims@;
    let mut r: Vec<(u64, UnitAnimChildRef)> = Vec::new();
    let n = anims.len();
    let mut i: usize = 0;
    while i < n
        invariant
            n == before.len(),
            entities@.len() == n,
            parent_alive@.len() == n,
            anims@.len() == n,
            0 <= i <= n,
            forall|j: int|
                0 <= j < i ==> #[trigger] anims@[j] == bind_step(before[j], parent_alive@[j]),
            forall|j: int| i <= j < n ==> anims@[j] == before[j],
            r@ + binding_from(before, entities@, parent_alive@, i as int) == binding_from(
                before,
                entities@,
                parent_alive@,
                0,
            ),
        decreases n - i,
    {
        let mut a = anims[i];
        let bound = a.try_bind(parent_alive[i]);
        anims.set(i, a);
        if bound {
            r.push((a.main_entity, UnitAnimChildRef(entities[i])));
            assert(binding_from(before, entities@, parent_alive@, i as int) == seq![
                (before[i as int].main_entity, UnitAnimChildRef(entities@[i as int])),
            ] + binding_from(before, entities@, parent_alive@, i + 1));
        }
        i = i + 1;
    }
    r
}

/// The latch is one-shot: over any run of ticks, a binding whose latch is
/// open adds the reference exactly once if its unit exists at some tick and
/// never otherwise; one whose latch is closed never adds it.
pub proof fn lemma_binds_at_most_once(a: UnitAnim, ticks: Seq<bool>)
    ensures
        binds_over(a, ticks) == if !a.added_ref_to_self_on_parent && exists|k: int|
            0 <= k < ticks.len() && #[trigger] ticks[k] {
            1nat
        } else {
            0nat
        },
    decreases ticks.len(),
{
    if ticks.len() > 0 {
        let rest = ticks.subrange(1, ticks.len() as int);
        lemma_binds_at_most_once(bind_step(a, ticks[0]), rest);
        if !a.added_ref_to_self_on_parent && !ticks[0] {
            if exists|k: int| 0 <= k < ticks.len() && #[trigger] ticks[k] {
                let k = choose|k: int| 0 <= k < ticks.len() && #[trigger] ticks[k];
                assert(rest[k - 1]);
            }
            if exists|k: int| 0 <= k < rest.len() && #[trigger] rest[k] {
                let k = choose|k: int| 0 <= k < rest.len() && #[trigger] rest[k];
                assert(ticks[k + 1]);
            }
        }
    }
}

} // verus!
