use eldritch_core::anim::{clip_name, Clip, PlayRequest, PlayingClips, Species};
use eldritch_core::behavior::{
    choose_request, choose_target, plan_tick, resolve_action, wants_attack, wants_pursuit,
    Effect, Reach, Senses, Target, UnitAction, PLUM_ATTACK_DMG, SPIDER_ATTACK_DMG,
};

fn senses(target: Target, reach: Reach, need_to_turn: bool, turn_left: bool) -> Senses {
    Senses { target, reach, need_to_turn, turn_left }
}

#[test]
fn spider_pursues_then_attacks() {
    // Far from the player and facing it: walk.
    let mut playing = PlayingClips::none();
    let far = senses(Target::Player, Reach::Outside, false, false);
    assert!(wants_pursuit(&far));
    assert!(!wants_attack(Species::Spider, &far));
    let plan = plan_tick(Species::Spider, &far, &mut playing, UnitAction::Idle, false, false);
    assert_eq!(
        plan.request,
        Some(PlayRequest { clip: Clip::Walk, speed: 6, looping: true })
    );
    assert_eq!(plan.action, UnitAction::Walk);
    assert_eq!(plan.effect, Effect::Stride);
    assert!(playing.walk);

    // Closed in within the attack distance: attack, draining every tick.
    let close = senses(Target::Player, Reach::Inside, false, false);
    let plan = plan_tick(Species::Spider, &close, &mut playing, plan.action, false, false);
    assert_eq!(
        plan.request,
        Some(PlayRequest { clip: Clip::Attack, speed: 1, looping: true })
    );
    assert_eq!(plan.action, UnitAction::Attack);
    assert_eq!(plan.effect, Effect::Drain);
    assert_eq!(SPIDER_ATTACK_DMG, 4);

    // Stays in the attack on the following ticks.
    for _ in 0..3 {
        let plan = plan_tick(Species::Spider, &close, &mut playing, UnitAction::Attack, false, false);
        assert_eq!(plan.request, None);
        assert_eq!(plan.action, UnitAction::Attack);
        assert_eq!(plan.effect, Effect::Drain);
    }
}

#[test]
fn plum_attack_beats_turn() {
    let s = senses(Target::Player, Reach::Inside, true, true);
    for attacking in [false, true] {
        let mut playing = PlayingClips::none();
        playing.attack = attacking;
        let plan = plan_tick(Species::Plum, &s, &mut playing, UnitAction::Rotate, false, false);
        assert_eq!(plan.action, UnitAction::Attack);
        if attacking {
            assert_eq!(plan.request, None);
        } else {
            assert_eq!(
                plan.request,
                Some(PlayRequest { clip: Clip::Attack, speed: 2, looping: false })
            );
        }
        assert!(!playing.turn_left && !playing.turn_right);
    }
}

#[test]
fn plum_turns_when_misaligned_and_far() {
    let mut playing = PlayingClips::none();
    let s = senses(Target::Player, Reach::Outside, true, false);
    let plan = plan_tick(Species::Plum, &s, &mut playing, UnitAction::Idle, false, false);
    assert_eq!(
        plan.request,
        Some(PlayRequest { clip: Clip::TurnRight, speed: 2, looping: true })
    );
    assert_eq!(plan.action, UnitAction::Rotate);
    assert_eq!(plan.effect, Effect::Pivot);
}

#[test]
fn plum_detonates_when_attack_finishes() {
    let s = senses(Target::Player, Reach::Inside, false, false);
    let mut playing = PlayingClips::none();
    playing.attack = true;
    let plan = plan_tick(Species::Plum, &s, &mut playing, UnitAction::Attack, true, true);
    assert_eq!(plan.effect, Effect::Detonate { damage: PLUM_ATTACK_DMG });
    assert_eq!(PLUM_ATTACK_DMG, 20);
    let plan = plan_tick(Species::Plum, &s, &mut playing, UnitAction::Attack, true, false);
    assert_eq!(plan.effect, Effect::Detonate { damage: 0 });
    let plan = plan_tick(Species::Plum, &s, &mut playing, UnitAction::Attack, false, true);
    assert_eq!(plan.effect, Effect::Face);
}

#[test]
fn plum_fresh_attack_does_not_detonate() {
    let s = senses(Target::Player, Reach::Inside, false, false);
    let mut playing = PlayingClips::none();
    let plan = plan_tick(Species::Plum, &s, &mut playing, UnitAction::Walk, true, true);
    assert_eq!(plan.action, UnitAction::Attack);
    assert_eq!(plan.effect, Effect::Face);
}

#[test]
fn plum_heads_to_graveyard_when_player_dead() {
    assert_eq!(choose_target(Species::Plum, true), Target::Graveyard);
    assert_eq!(choose_target(Species::Plum, false), Target::Player);
    assert_eq!(choose_target(Species::Spider, true), Target::Player);
    let s = senses(Target::Graveyard, Reach::Outside, false, false);
    assert!(!wants_attack(Species::Plum, &s));
    let r = choose_request(Species::Plum, &s, &PlayingClips::none());
    assert_eq!(r, Some(PlayRequest { clip: Clip::Walk, speed: 1, looping: true }));
    let alive = senses(Target::Player, Reach::Outside, false, false);
    let r = choose_request(Species::Plum, &alive, &PlayingClips::none());
    assert_eq!(r, Some(PlayRequest { clip: Clip::Walk, speed: 3, looping: true }));
}

#[test]
fn spider_attacks_only_when_facing() {
    let s = senses(Target::Player, Reach::Inside, true, true);
    assert!(!wants_attack(Species::Spider, &s));
    let r = choose_request(Species::Spider, &s, &PlayingClips::none());
    assert_eq!(r, Some(PlayRequest { clip: Clip::TurnLeft, speed: 1, looping: true }));
}

#[test]
fn no_redundant_requests() {
    let s = senses(Target::Player, Reach::Outside, false, false);
    let mut playing = PlayingClips::none();
    playing.walk = true;
    assert_eq!(choose_request(Species::Plum, &s, &playing), None);
    assert_eq!(choose_request(Species::Spider, &s, &playing), None);
}

#[test]
fn idle_when_nothing_to_do() {
    let s = senses(Target::Graveyard, Reach::Inside, false, false);
    let mut playing = PlayingClips::none();
    let plan = plan_tick(Species::Plum, &s, &mut playing, UnitAction::Idle, false, false);
    assert_eq!(plan.request, None);
    assert_eq!(plan.action, UnitAction::Idle);
    assert_eq!(plan.effect, Effect::Still);
}

#[test]
fn action_priority_and_previous_kept() {
    let mut p = PlayingClips::none();
    assert_eq!(resolve_action(&p, Clip::TurnLeft, UnitAction::Walk), UnitAction::Walk);
    p.turn_right = true;
    assert_eq!(resolve_action(&p, Clip::TurnLeft, UnitAction::Idle), UnitAction::Idle);
    assert_eq!(resolve_action(&p, Clip::TurnRight, UnitAction::Idle), UnitAction::Rotate);
    p.walk = true;
    assert_eq!(resolve_action(&p, Clip::TurnRight, UnitAction::Idle), UnitAction::Walk);
    p.attack = true;
    assert_eq!(resolve_action(&p, Clip::TurnRight, UnitAction::Idle), UnitAction::Attack);
}

#[test]
fn clip_names_per_species() {
    assert_eq!(clip_name(Species::Plum, Clip::Attack), "Attack");
    assert_eq!(clip_name(Species::Spider, Clip::Attack), "Attack");
    assert_eq!(clip_name(Species::Plum, Clip::Walk), "Fast_Walk_Cycle");
    assert_eq!(clip_name(Species::Plum, Clip::TurnLeft), "Fast_Turning_Left");
    assert_eq!(clip_name(Species::Plum, Clip::TurnRight), "Fast_Turning_Right");
    assert_eq!(clip_name(Species::Spider, Clip::Walk), "Wandering_Walk_Cycle");
    assert_eq!(clip_name(Species::Spider, Clip::TurnLeft), "Wandering_Turn_Left");
    assert_eq!(clip_name(Species::Spider, Clip::TurnRight), "Wandering_Turn_Right");
}

#[test]
fn edge_band_neither_attacks_nor_pursues() {
    let s = senses(Target::Player, Reach::Edge, false, false);
    for species in [Species::Plum, Species::Spider] {
        assert!(!wants_attack(species, &s));
        assert!(!wants_pursuit(&s));
        assert_eq!(choose_request(species, &s, &PlayingClips::none()), None);
    }
}
