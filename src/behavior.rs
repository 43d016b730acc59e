//! The per-unit behaviour state machine: from what a unit senses and which
//! clips are playing, which clip to start, which action the unit is in, and
//! what that action does this tick.
use vstd::prelude::*;
use crate::anim::{Clip, PlayRequest, PlayingClips, Species};

verus! {

/// Damage a plum's detonation deals to a target inside its blast radius.
pub const PLUM_ATTACK_DMG: u32 = 20;

/// Damage per second a spider drains while its attack clip plays.
pub const SPIDER_ATTACK_DMG: u32 = 4;

/// The last resolved behaviour of a unit.
#[derive(Clone, Copy, Debug, PartialEq, Eq, Structural)]
pub enum UnitAction {
    Idle,
    Attack,
    Rotate,
    Walk,
}

/// The action of a plum unit.
pub type PlumAction = UnitAction;

/// The action of a spider unit.
pub type SpiderAction = UnitAction;

/// Where a unit heads: the live player, or, once the player is dead, a fixed
/// point off the map.
#[derive(Clone, Copy, Debug, PartialEq, Eq, Structural)]
pub enum Target {
    Player,
    Graveyard,
}

/// Where the target lies against the species' attack distance `a` and the
/// flicker buffer `b`: at most `a - b` away (close enough to attack),
/// farther than `a - b` but at most `a` (neither attack nor pursue), or
/// farther than `a` (pursue).
#[derive(Clone, Copy, Debug, PartialEq, Eq, Structural)]
pub enum Reach {
    Inside,
    Edge,
    Outside,
}

/// What a unit senses of its target this tick.
#[derive(Clone, Copy, Debug, PartialEq, Eq, Structural)]
pub struct Senses {
    pub target: Target,
    pub reach: Reach,
    /// The unit faces more than about 21.6 degrees away from the target.
    pub need_to_turn: bool,
    /// The signed turn towards the target is positive (a left turn).
    pub turn_left: bool,
}

/// What the current action does this tick.
#[derive(Clone, Copy, Debug, PartialEq, Eq, Structural)]
pub enum Effect {
    /// Nothing moves.
    Still,
    /// Move towards the target during the walk clip's stride window.
    Stride,
    /// Yaw towards the target during the turn clip's pivot window.
    Pivot,
    /// Ease the facing towards the target while winding up.
    Face,
    /// Drain the target's health at `SPIDER_ATTACK_DMG` per second.
    Drain,
    /// Deal `damage` to the target, then the unit despawns, leaving the
    /// explosions that `effect_spawns` lists.
    Detonate { damage: u32 },
}

/// The outcome of one tick of the controller for one unit.
#[derive(Clone, Copy, Debug, PartialEq, Eq, Structural)]
pub struct TickPlan {
    pub request: Option<PlayRequest>,
    pub action: UnitAction,
    pub effect: Effect,
}

/// The target of a plum: the player while alive, else the graveyard.
/// Spiders always target the player.
pub open spec fn target_spec(species: Species, player_dead: bool) -> Target {
    if species == Species::Plum && player_dead {
        Target::Graveyard
    } else {
        Target::Player
    }
}

/// Picks the target a unit heads for.
pub fn choose_target(species: Species, player_dead: bool) -> (r: Target)
    ensures
        r == target_spec(species, player_dead),
{
    match species {
        Species::Plum => if player_dead {
            Target::Graveyard
        } else {
            Target::Player
        },
        Species::Spider => Target::Player,
    }
}

/// Within the attack distance less the buffer.
pub open spec fn within_attack_reach(s: Senses) -> bool {
    s.reach == Reach::Inside
}

/// Farther than the attack distance.
pub open spec fn beyond_attack_distance(s: Senses) -> bool {
    s.reach == Reach::Outside
}

/// A plum attacks whatever its facing once in reach of a live target; a
/// spider attacks only once it also faces the target.
pub open spec fn should_attack(species: Species, s: Senses) -> bool {
    match species {
        Species::Plum => within_attack_reach(s) && s.target == Target::Player,
        Species::Spider => !s.need_to_turn && within_attack_reach(s),
    }
}

/// A unit pursues when it faces the target and is beyond attack distance.
pub open spec fn should_pursue(s: Senses) -> bool {
    !s.need_to_turn && beyond_attack_distance(s)
}

/// The turn clip matching the sign of the needed turn.
pub open spec fn turn_clip_spec(s: Senses) -> Clip {
    if s.turn_left {
        Clip::TurnLeft
    } else {
        Clip::TurnRight
    }
}

/// The speed of each clip a species requests. A plum walks slower once it
/// heads for the graveyard.
pub open spec fn clip_speed(species: Species, clip: Clip, target: Target) -> u32 {
    match species {
        Species::Plum => if clip == Clip::Walk {
            if target == Target::Graveyard {
                1
            } else {
                3
            }
        } else {
            2
        },
        Species::Spider => if clip == Clip::Walk {
            6
        } else {
            1
        },
    }
}

/// The request for `clip`: only a plum's attack plays once.
pub open spec fn request_for(species: Species, clip: Clip, target: Target) -> PlayRequest {
    PlayRequest {
        clip,
        speed: clip_speed(species, clip, target),
        looping: !(species == Species::Plum && clip == Clip::Attack),
    }
}

/// The transition policy. In priority order: attack, turn, pursue; each only
/// if its clip is not already playing. A plum does not leave a running
/// attack; a spider holds its attack while it should attack.
pub open spec fn transition_spec(species: Species, s: Senses, p: PlayingClips) -> Option<Clip> {
    let attacking = p.has(Clip::Attack);
    let hold = match species {
        Species::Plum => attacking,
        Species::Spider => should_attack(species, s),
    };
    if !attacking && should_attack(species, s) {
        Some(Clip::Attack)
    } else if !hold && !p.has(turn_clip_spec(s)) && s.need_to_turn {
        Some(turn_clip_spec(s))
    } else if !hold && !p.has(Clip::Walk) && should_pursue(s) {
        Some(Clip::Walk)
    } else {
        None
    }
}

/// The request matching `transition_spec`.
pub open spec fn request_spec(species: Species, s: Senses, p: PlayingClips) -> Option<
    PlayRequest,
> {
    match transition_spec(species, s, p) {
        Some(c) => Some(request_for(species, c, s.target)),
        None => None,
    }
}

/// The action read back from the playing clips: attack over walk over the
/// wanted turn; with none of them playing the previous action stands.
pub open spec fn action_spec(p: PlayingClips, turn: Clip, previous: UnitAction) -> UnitAction {
    if p.has(Clip::Attack) {
        UnitAction::Attack
    } else if p.has(Clip::Walk) {
        UnitAction::Walk
    } else if p.has(turn) {
        UnitAction::Rotate
    } else {
        previous
    }
}

/// What the action does this tick. A plum's attack detonates once its
/// one-shot clip has finished, hurting the target only inside the blast
/// radius; until then the plum turns to face the target.
pub open spec fn effect_spec(
    species: Species,
    action: UnitAction,
    attack_finished: bool,
    in_blast_radius: bool,
) -> Effect {
    match action {
        UnitAction::Attack => match species {
            Species::Plum => if attack_finished {
                Effect::Detonate { damage: if in_blast_radius { PLUM_ATTACK_DMG } else { 0 } }
            } else {
                Effect::Face
            },
            Species::Spider => Effect::Drain,
        },
        UnitAction::Walk => Effect::Stride,
        UnitAction::Rotate => Effect::Pivot,
        UnitAction::Idle => Effect::Still,
    }
}

/// The clip playing after the request has been issued.
pub open spec fn after_request(p: PlayingClips, r: Option<PlayRequest>) -> PlayingClips {
    match r {
        Some(req) => p.started(req.clip),
        None => p,
    }
}

/// The whole tick: request, resolved action and effect.
pub open spec fn tick_spec(
    species: Species,
    s: Senses,
    p: PlayingClips,
    previous: UnitAction,
    attack_finished: bool,
    in_blast_radius: bool,
) -> TickPlan {
    let request = request_spec(species, s, p);
    let action = action_spec(after_request(p, request), turn_clip_spec(s), previous);
    TickPlan {
        request,
        action,
        effect: effect_spec(species, action, attack_finished && p.has(Clip::Attack), in_blast_radius),
    }
}

/// Whether the unit should attack this tick.
pub fn wants_attack(species: Species, s: &Senses) -> (r: bool)
    ensures
        r == should_attack(species, *s),
{
    let in_reach = matches!(s.reach, Reach::Inside);
    match species {
        Species::Plum => in_reach && matches!(s.target, Target::Player),
        Species::Spider => !s.need_to_turn && in_reach,
    }
}

/// Whether the unit should close in on its target this tick.
pub fn wants_pursuit(s: &Senses) -> (r: bool)
    ensures
        r == should_pursue(*s),
{
    !s.need_to_turn && matches!(s.reach, Reach::Outside)
}

/// The turn clip for the needed turn.
pub fn turn_clip(s: &Senses) -> (r: Clip)
    ensures
        r == turn_clip_spec(*s),
{
    if s.turn_left {
        Clip::TurnLeft
    } else {
        Clip::TurnRight
    }
}

/// Builds the request for `clip`.
pub fn make_request(species: Species, clip: Clip, target: Target) -> (r: PlayRequest)
    ensures
        r == request_for(species, clip, target),
{
    let walk = matches!(clip, Clip::Walk);
    let speed: u32 = match species {
        Species::Plum => if walk {
            if matches!(target, Target::Graveyard) {
                1
            } else {
                3
            }
        } else {
            2
        },
        Species::Spider => if walk {
            6
        } else {
            1
        },
    };
    let one_shot = matches!(species, Species::Plum) && matches!(clip, Clip::Attack);
    PlayRequest { clip, speed, looping: !one_shot }
}

/// Applies the transition policy: which clip, if any, to start this tick.
pub fn choose_request(species: Species, s: &Senses, p: &PlayingClips) -> (r: Option<PlayRequest>)
    ensures
        r == request_spec(species, *s, *p),
{
    let attack = wants_attack(species, s);
    let attacking = p.playing(Clip::Attack);
    let hold = match species {
        Species::Plum => attacking,
        Species::Spider => attack,
    };
    let turn = turn_clip(s);
    if !attacking && attack {
        Some(make_request(species, Clip::Attack, s.target))
    } else if !hold && !p.playing(turn) && s.need_to_turn {
        Some(make_request(species, turn, s.target))
    } else if !hold && !p.playing(Clip::Walk) && wants_pursuit(s) {
        Some(make_request(species, Clip::Walk, s.target))
    } else {
        None
    }
}

/// Reads the unit's action back from the playing clips.
pub fn resolve_action(p: &PlayingClips, turn: Clip, previous: UnitAction) -> (r: UnitAction)
    ensures
        r == action_spec(*p, turn, previous),
{
    if p.playing(Clip::Attack) {
        UnitAction::Attack
    } else if p.playing(Clip::Walk) {
        UnitAction::Walk
    } else if p.playing(turn) {
        UnitAction::Rotate
    } else {
        previous
    }
}

/// What `action` does this tick.
pub fn action_effect(
    species: Species,
    action: UnitAction,
    attack_finished: bool,
    in_blast_radius: bool,
) -> (r: Effect)
    ensures
        r == effect_spec(species, action, attack_finished, in_blast_radius),
{
    match action {
        UnitAction::Attack => match species {
            Species::Plum => if attack_finished {
                let damage: u32 = if in_blast_radius {
                    PLUM_ATTACK_DMG
                } else {
                    0
                };
                Effect::Detonate { damage }
            } else {
                Effect::Face
            },
            Species::Spider => Effect::Drain,
        },
        UnitAction::Walk => Effect::Stride,
        UnitAction::Rotate => Effect::Pivot,
        UnitAction::Idle => Effect::Still,
    }
}

/// Runs the controller for one unit for one tick.
///
/// `playing` holds the clips playing before the tick and is updated with the
/// clip started, if any. `attack_finished` says that the attack clip, if it
/// was already playing, has played through; `in_blast_radius` that the unit
/// is within its blast radius of the target.
pub fn plan_tick(
    species: Species,
    s: &Senses,
    playing: &mut PlayingClips,
    previous: UnitAction,
    attack_finished: bool,
    in_blast_radius: bool,
) -> (r: TickPlan)
    ensures
        r == tick_spec(species, *s, *old(playing), previous, attack_finished, in_blast_radius),
        *final(playing) == after_request(*old(playing), r.request),
{
    let was_attacking = playing.playing(Clip::Attack);
    let request = choose_request(species, s, playing);
    if let Some(req) = request {
        playing.start(req.clip);
    }
    let action = resolve_action(playing, turn_clip(s), previous);
    let effect = action_effect(species, action, attack_finished && was_attacking, in_blast_radius);
    TickPlan { request, action, effect }
}

/// An attack takes precedence over turning: a plum that should attack while
/// misaligned with its target ends the tick attacking and never starts a
/// turn clip.
pub proof fn lemma_attack_precedes_turn(
    s: Senses,
    p: PlayingClips,
    previous: UnitAction,
    attack_finished: bool,
    in_blast_radius: bool,
)
    requires
        should_attack(Species::Plum, s),
        s.need_to_turn,
    ensures
        ({
            let plan = tick_spec(Species::Plum, s, p, previous, attack_finished, in_blast_radius);
            &&& plan.action == UnitAction::Attack
            &&& plan.request != Some(request_for(Species::Plum, Clip::TurnLeft, s.target))
            &&& plan.request != Some(request_for(Species::Plum, Clip::TurnRight, s.target))
        }),
{
}

} // verus!
