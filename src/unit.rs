//! Unit records, damage from the player's weapon, and the death sweep.
use vstd::prelude::*;
use crate::anim::{PlayingClips, Species};
use crate::behavior::{after_request, plan_tick, tick_spec, Effect, Senses, TickPlan, UnitAction};

verus! {

/// Health a unit spawns with.
pub const UNIT_START_HEALTH: i32 = 100;

/// At most this many units take damage from one shot.
pub const MAX_SHOT_TARGETS: usize = 3;

/// Damage one shot deals to a spider.
pub const SPIDER_SHOT_DMG: i32 = 40;

/// Damage one shot deals to a plum.
pub const PLUM_SHOT_DMG: i32 = 20;

/// One live enemy. `action` is written by the controller for display only;
/// `despawned` is set once the death sweep has claimed the unit, so that a
/// unit whose removal is still pending is never counted twice.
#[derive(Clone, Copy, Debug, PartialEq, Eq, Structural)]
pub struct Unit {
    pub action: UnitAction,
    pub health: i32,
    pub despawned: bool,
}

/// A plum enemy.
pub type PlumUnit = Unit;

/// A spider enemy.
pub type SpiderUnit = Unit;

impl Unit {
    /// A freshly spawned unit: full health, idle.
    pub fn new() -> (r: Unit)
        ensures
            r == (Unit { action: UnitAction::Idle, health: UNIT_START_HEALTH, despawned: false }),
    {
        Unit { action: UnitAction::Idle, health: UNIT_START_HEALTH, despawned: false }
    }
}

impl Default for Unit {
    fn default() -> (r: Unit)
        ensures
            r == (Unit { action: UnitAction::Idle, health: UNIT_START_HEALTH, despawned: false }),
    {
        Unit::new()
    }
}

/// A unit the death sweep claims: below zero health and not yet claimed.
pub open spec fn dying(u: Unit) -> bool {
    !u.despawned && u.health < 0
}

/// A unit after the death sweep.
pub open spec fn swept(u: Unit) -> Unit {
    if dying(u) {
        Unit { despawned: true, ..u }
    } else {
        u
    }
}

/// The indices from `i` on of the units the death sweep claims, in order.
pub open spec fn dying_from(s: Seq<Unit>, i: int) -> Seq<usize>
    decreases s.len() - i,
{
    if i < 0 || i >= s.len() {
        Seq::empty()
    } else if dying(s[i]) {
        seq![i as usize] + dying_from(s, i + 1)
    } else {
        dying_from(s, i + 1)
    }
}

/// The indices of the units the death sweep claims, in order.
pub open spec fn dying_indices(s: Seq<Unit>) -> Seq<usize> {
    dying_from(s, 0)
}

/// Claims every unit below zero health that is not claimed yet, and adds
/// one kill for each. Returns the indices claimed, in order; the caller
/// removes those entities and spawns their death effects.
pub fn despawn_dead(units: &mut Vec<Unit>, kills: &mut u32) -> (r: Vec<usize>)
    requires
        *old(kills) as int + dying_indices(old(units)@).len() <= u32::MAX,
    ensures
        final(units)@ == old(units)@.map_values(|u: Unit| swept(u)),
        r@ == dying_indices(old(units)@),
        *final(kills) as int == *old(kills) as int + r@.len(),
{
    let ghost before = units@;
    let mut r: Vec<usize> = Vec::new();
    let n = units.len();
    let mut i: usize = 0;
    while i < n
        invariant
            n == before.len(),
            units@.len() == n,
            0 <= i <= n,
            forall|j: int| 0 <= j < i ==> units@[j] == swept(before[j]),
            forall|j: int| i <= j < n ==> units@[j] == before[j],
            r@ + dying_from(before, i as int) == dying_from(before, 0),
            r@.len() <= i,
            *kills as int == *old(kills) as int + r@.len(),
            *old(kills) as int + dying_from(before, 0).len() <= u32::MAX,
        decreases n - i,
    {
        let u = units[i];
        if !u.despawned && u.health < 0 {
            assert(dying_from(before, i as int) == seq![i] + dying_from(before, i + 1));
            assert((r@ + dying_from(before, i as int)).len() == dying_from(before, 0).len());
            units.set(i, Unit { despawned: true, ..u });
            r.push(i);
            *kills = *kills + 1;
        }
        i = i + 1;
    }
    assert(units@ =~= before.map_values(|u: Unit| swept(u)));
    r
}

/// The death sweep claims every unit at most once: on a roster it has
/// already swept it claims nothing and leaves every unit as it was, so a
/// second run before removal completes adds no kill.
pub proof fn lemma_sweep_idempotent(s: Seq<Unit>)
    ensures
        dying_indices(s.map_values(|u: Unit| swept(u))) == Seq::<usize>::empty(),
        s.map_values(|u: Unit| swept(u)).map_values(|u: Unit| swept(u)) == s.map_values(
            |u: Unit| swept(u),
        ),
{
    let t = s.map_values(|u: Unit| swept(u));
    lemma_none_dying(t, 0);
    assert(t.map_values(|u: Unit| swept(u)) =~= t);
}

/// Damage one shot deals to a unit of `species`.
pub open spec fn shot_damage_spec(species: Species) -> i32 {
    match species {
        Species::Plum => PLUM_SHOT_DMG,
        Species::Spider => SPIDER_SHOT_DMG,
    }
}

/// Damage one shot deals to a unit of `species`.
pub fn shot_damage(species: Species) -> (r: i32)
    ensures
        r == shot_damage_spec(species),
{
    match species {
        Species::Plum => PLUM_SHOT_DMG,
        Species::Spider => SPIDER_SHOT_DMG,
    }
}

/// Health after taking `damage`, floored at the least `i32`.
pub open spec fn hurt(u: Unit, damage: i32) -> Unit {
    let h = u.health - damage;
    Unit { health: if h < i32::MIN { i32::MIN } else { h as i32 }, ..u }
}

/// The indices, from `i` on, of the first `budget` units that the shot's ray
/// crosses and that are not claimed by the death sweep, in order.
pub open spec fn targets_from(s: Seq<Unit>, hit: Seq<bool>, i: int, budget: nat) -> Seq<usize>
    decreases s.len() - i,
{
    if i < 0 || i >= s.len() || budget == 0 {
        Seq::empty()
    } else if hit[i] && !s[i].despawned {
        seq![i as usize] + targets_from(s, hit, i + 1, (budget - 1) as nat)
    } else {
        targets_from(s, hit, i + 1, budget)
    }
}

/// The units one shot damages: the first `MAX_SHOT_TARGETS` crossed.
pub open spec fn shot_targets(s: Seq<Unit>, hit: Seq<bool>) -> Seq<usize> {
    targets_from(s, hit, 0, MAX_SHOT_TARGETS as nat)
}

/// Applies one shot: `hit[i]` says that the ray crosses unit `i`'s box. The
/// first `MAX_SHOT_TARGETS` units crossed, not counting claimed ones, lose
/// the species' shot damage. Returns their indices, where the caller spawns
/// blood splatters.
pub fn apply_shot(units: &mut Vec<Unit>, hit: &Vec<bool>, species: Species) -> (r: Vec<usize>)
    requires
        hit@.len() == old(units)@.len(),
    ensures
        r@ == shot_targets(old(units)@, hit@),
        r@.len() <= MAX_SHOT_TARGETS,
        final(units)@.len() == old(units)@.len(),
        forall|j: int|
            0 <= j < old(units)@.len() ==> #[trigger] final(units)@[j] == if r@.contains(
                j as usize,
            ) {
                hurt(old(units)@[j], shot_damage_spec(species))
            } else {
                old(units)@[j]
            },
{
    let ghost before = units@;
    let damage = shot_damage(species);
    let mut r: Vec<usize> = Vec::new();
    let n = units.len();
    let mut i: usize = 0;
    while i < n && r.len() < MAX_SHOT_TARGETS
        invariant
            n == before.len(),
            hit@.len() == n,
            units@.len() == n,
            0 <= i <= n,
            r@.len() <= MAX_SHOT_TARGETS,
            damage == shot_damage_spec(species),
            r@ + targets_from(before, hit@, i as int, (MAX_SHOT_TARGETS - r@.len()) as nat)
                == shot_targets(before, hit@),
            forall|k: int| 0 <= k < r@.len() ==> r@[k] < i,
            forall|j: int|
                0 <= j < i ==> #[trigger] units@[j] == if r@.contains(j as usize) {
                    hurt(before[j], damage)
                } else {
                    before[j]
                },
            forall|j: int| i <= j < n ==> units@[j] == before[j],
        decreases n - i,
    {
        let u = units[i];
        if hit[i] && !u.despawned {
            let ghost budget = (MAX_SHOT_TARGETS - r.len()) as nat;
            assert(targets_from(before, hit@, i as int, budget) == seq![i] + targets_from(
                before,
                hit@,
                i + 1,
                (budget - 1) as nat,
            ));
            let health: i32 = if u.health >= i32::MIN + damage {
                u.health - damage
            } else {
                i32::MIN
            };
            units.set(i, Unit { health, ..u });
            let ghost r0 = r@;
            r.push(i);
            assert(r@ == r0.push(i));
            assert forall|j: int| 0 <= j < i + 1 implies #[trigger] units@[j] == if r@.contains(
                j as usize,
            ) {
                hurt(before[j], damage)
            } else {
                before[j]
            } by {
                if j < i {
                    assert(r@.contains(j as usize) == r0.contains(j as usize)) by {
                        if r@.contains(j as usize) {
                            let k = choose|k: int| 0 <= k < r@.len() && r@[k] == j as usize;
                            assert(k < r0.len());
                            assert(r0[k] == j as usize);
                        }
                        if r0.contains(j as usize) {
                            let k = choose|k: int| 0 <= k < r0.len() && r0[k] == j as usize;
                            assert(r@[k] == j as usize);
                        }
                    }
                } else {
                    assert(r@[r0.len() as int] == i);
                }
            }
        } else {
            assert forall|j: int| 0 <= j < i + 1 implies #[trigger] units@[j] == if r@.contains(
                j as usize,
            ) {
                hurt(before[j], damage)
            } else {
                before[j]
            } by {
                if j == i {
                    if r@.contains(j as usize) {
                        let k = choose|k: int| 0 <= k < r@.len() && r@[k] == j as usize;
                    }
                }
            }
        }
        i = i + 1;
    }
    assert(targets_from(before, hit@, i as int, (MAX_SHOT_TARGETS - r@.len()) as nat)
        == Seq::<usize>::empty());
    assert(r@ =~= shot_targets(before, hit@));
    proof {
        assert forall|j: int| 0 <= j < n implies #[trigger] units@[j] == if r@.contains(
            j as usize,
        ) {
            hurt(before[j], damage)
        } else {
            before[j]
        } by {
            if j >= i {
                if r@.contains(j as usize) {
                    let k = choose|k: int| 0 <= k < r@.len() && r@[k] == j as usize;
                }
            }
        }
    }
    r
}

/// An explosion effect to spawn where a unit died: `age_tenths` tenths of a
/// second already elapsed of its life, `lift_tenths` tenths of a unit above
/// the body.
#[derive(Clone, Copy, Debug, PartialEq, Eq, Structural)]
pub struct ExplosionSpawn {
    pub age_tenths: u32,
    pub lift_tenths: u32,
}

/// The explosions left by a dead unit: a plum leaves two, one at the body
/// started two tenths in and one a unit and a half above it; a spider
/// leaves one at the body.
pub open spec fn death_effects_spec(species: Species) -> Seq<ExplosionSpawn> {
    match species {
        Species::Plum => seq![
            ExplosionSpawn { age_tenths: 2, lift_tenths: 0 },
            ExplosionSpawn { age_tenths: 0, lift_tenths: 15 },
        ],
        Species::Spider => seq![ExplosionSpawn { age_tenths: 0, lift_tenths: 0 }],
    }
}

/// The explosions to spawn where a unit of `species` died.
pub fn death_effects(species: Species) -> (r: Vec<ExplosionSpawn>)
    ensures
        r@ == death_effects_spec(species),
{
    let mut r: Vec<ExplosionSpawn> = Vec::new();
    match species {
        Species::Plum => {
            r.push(ExplosionSpawn { age_tenths: 2, lift_tenths: 0 });
            r.push(ExplosionSpawn { age_tenths: 0, lift_tenths: 15 });
        },
        Species::Spider => {
            r.push(ExplosionSpawn { age_tenths: 0, lift_tenths: 0 });
        },
    }
    assert(r@ =~= death_effects_spec(species));
    r
}

/// A unit after the controller's tick: it records the resolved action, and
/// a detonating plum is claimed, so that its removal adds no kill.
pub open spec fn after_tick(u: Unit, plan: TickPlan) -> Unit {
    Unit {
        action: plan.action,
        despawned: u.despawned || plan.effect is Detonate,
        ..u
    }
}

/// The plan of one unit this tick: none for a claimed unit.
pub open spec fn planned(
    species: Species,
    s: Senses,
    u: Unit,
    p: PlayingClips,
    attack_finished: bool,
    in_blast_radius: bool,
) -> Option<TickPlan> {
    if u.despawned {
        None
    } else {
        Some(tick_spec(species, s, p, u.action, attack_finished, in_blast_radius))
    }
}

/// A unit after its plan, if it has one.
pub open spec fn unit_after(u: Unit, plan: Option<TickPlan>) -> Unit {
    match plan {
        Some(t) => after_tick(u, t),
        None => u,
    }
}

/// The playing clips after the unit's plan, if it has one.
pub open spec fn playing_after(p: PlayingClips, plan: Option<TickPlan>) -> PlayingClips {
    match plan {
        Some(t) => after_request(p, t.request),
        None => p,
    }
}

/// Runs the controller for every unclaimed unit of one species for one
/// tick. For unit `i`, `senses[i]` is what it senses, `playing[i]` the clips
/// its animation player reports, `attack_finished[i]` whether its running
/// attack clip has played through and `in_blast_radius[i]` whether it is
/// within blast radius of its target. Returns each unit's plan; claimed
/// units get none and are left as they are.
pub fn plan_units(
    species: Species,
    units: &mut Vec<Unit>,
    senses: &Vec<Senses>,
    playing: &mut Vec<PlayingClips>,
    attack_finished: &Vec<bool>,
    in_blast_radius: &Vec<bool>,
) -> (r: Vec<Option<TickPlan>>)
    requires
        senses@.len() == old(units)@.len(),
        old(playing)@.len() == old(units)@.len(),
        attack_finished@.len() == old(units)@.len(),
        in_blast_radius@.len() == old(units)@.len(),
    ensures
        r@.len() == old(units)@.len(),
        final(units)@.len() == old(units)@.len(),
        final(playing)@.len() == old(units)@.len(),
        forall|i: int|
            0 <= i < old(units)@.len() ==> #[trigger] r@[i] == planned(
                species,
                senses@[i],
                old(units)@[i],
                old(playing)@[i],
                attack_finished@[i],
                in_blast_radius@[i],
            ),
        forall|i: int|
            0 <= i < old(units)@.len() ==> #[trigger] final(units)@[i] == unit_after(
                old(units)@[i],
                r@[i],
            ),
        forall|i: int|
            0 <= i < old(units)@.len() ==> #[trigger] final(playing)@[i] == playing_after(
                old(playing)@[i],
                r@[i],
            ),
{
    let ghost units0 = units@;
    let ghost playing0 = playing@;
    let mut r: Vec<Option<TickPlan>> = Vec::new();
    let n = units.len();
    let mut i: usize = 0;
    while i < n
        invariant
            n == units0.len(),
            units@.len() == n,
            playing@.len() == n,
            playing0.len() == n,
            senses@.len() == n,
            attack_finished@.len() == n,
            in_blast_radius@.len() == n,
            0 <= i <= n,
            r@.len() == i,
            forall|j: int| i <= j < n ==> units@[j] == units0[j] && playing@[j] == playing0[j],
            forall|j: int|
                0 <= j < i ==> #[trigger] r@[j] == planned(
                    species,
                    senses@[j],
                    units0[j],
                    playing0[j],
                    attack_finished@[j],
                    in_blast_radius@[j],
                ),
            forall|j: int| 0 <= j < i ==> #[trigger] units@[j] == unit_after(units0[j], r@[j]),
            forall|j: int|
                0 <= j < i ==> #[trigger] playing@[j] == playing_after(playing0[j], r@[j]),
        decreases n - i,
    {
        let u = units[i];
        if u.despawned {
            r.push(None);
        } else {
            let mut p = playing[i];
            let plan = plan_tick(
                species,
                &senses[i],
                &mut p,
                u.action,
                attack_finished[i],
                in_blast_radius[i],
            );
            let detonates = matches!(plan.effect, Effect::Detonate { .. });
            units.set(i, Unit { action: plan.action, despawned: detonates, ..u });
            playing.set(i, p);
            r.push(Some(plan));
        }
        i = i + 1;
    }
    r
}

/// The number of units the death sweep would claim now; a caller checks
/// that the kill counter has room for them.
pub fn count_dying(units: &Vec<Unit>) -> (r: usize)
    ensures
        r == dying_indices(units@).len(),
{
    let n = units.len();
    let mut c: usize = 0;
    let mut i: usize = 0;
    while i < n
        invariant
            n == units@.len(),
            0 <= i <= n,
            c <= i,
            c + dying_from(units@, i as int).len() == dying_from(units@, 0).len(),
        decreases n - i,
    {
        if !units[i].despawned && units[i].health < 0 {
            assert(dying_from(units@, i as int) == seq![i] + dying_from(units@, i + 1));
            c = c + 1;
        }
        i = i + 1;
    }
    c
}

/// The explosions an effect leaves where the unit stood: a detonation
/// leaves the same staggered explosions as the species' death, any other
/// effect leaves none.
pub open spec fn effect_spawns_spec(species: Species, effect: Effect) -> Seq<ExplosionSpawn> {
    if effect is Detonate {
        death_effects_spec(species)
    } else {
        Seq::empty()
    }
}

/// The explosions to spawn for a unit's effect this tick.
pub fn effect_spawns(species: Species, effect: Effect) -> (r: Vec<ExplosionSpawn>)
    ensures
        r@ == effect_spawns_spec(species, effect),
{
    match effect {
        Effect::Detonate { .. } => death_effects(species),
        _ => {
            let r: Vec<ExplosionSpawn> = Vec::new();
            assert(r@ =~= effect_spawns_spec(species, effect));
            r
        },
    }
}

proof fn lemma_none_dying(t: Seq<Unit>, i: int)
    requires
        forall|j: int| 0 <= j < t.len() ==> !dying(#[trigger] t[j]),
        0 <= i,
    ensures
        dying_from(t, i) == Seq::<usize>::empty(),
    decreases t.len() - i,
{
    if i < t.len() {
        lemma_none_dying(t, i + 1);
    }
}

} // verus!
