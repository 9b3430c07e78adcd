//! The machine end to end: slotting runes, firing the ball, chaining
//! trigger stars to the donut, and the reset on failure.

use rune_machine::collide::handle_collision_ball_with_ball_firing_thingy;
use rune_machine::collide::handle_collision_blue_ball_and_runes;
use rune_machine::collide::handle_collision_blue_ball_with_trigger_star;
use rune_machine::collide::handle_collision_rune_effect_with_trigger_star;
use rune_machine::collide::handle_collision_rune_with_rune_slot;
use rune_machine::collide::BallFiringOutcome;
use rune_machine::collide::BallStarOutcome;
use rune_machine::collide::BlueBallRuneOutcome;
use rune_machine::collide::ContactPair;
use rune_machine::collide::MachineSignal;
use rune_machine::collide::RuneSlotOutcome;
use rune_machine::collide::StarContactOutcome;
use rune_machine::geom::Vec2I;
use rune_machine::input::controls;
use rune_machine::input::handle_event_mouse_move;
use rune_machine::input::handle_event_pick;
use rune_machine::input::handle_event_release;
use rune_machine::input::PickOutcome;
use rune_machine::machine::apply_rune_effects;
use rune_machine::machine::handle_event_machine_failed;
use rune_machine::machine::handle_event_trigger_star_activated;
use rune_machine::machine::ResetOutcome;
use rune_machine::machine::TriggerOutcome;
use rune_machine::scene::setup_mvp_scene;
use rune_machine::world::set_image_size;
use rune_machine::world::GameWorld;
use rune_machine::world::RuneEffectType;
use rune_machine::world::Tint;

fn pair(a: usize, b: usize) -> ContactPair {
    ContactPair { collider1: a, collider2: b }
}

fn scene() -> GameWorld {
    let mut w = setup_mvp_scene();
    for i in [0usize, 1, 2, 3, 4] {
        set_image_size(&mut w, i, Vec2I { x: 64, y: 64 });
    }
    w
}

/// Drags the object at `from` to `to` and drops it there.
fn drag(w: &mut GameWorld, from: Vec2I, to: Vec2I, expect: usize) {
    controls(w, true, false);
    let picked = handle_event_pick(w, from);
    assert_eq!(picked, PickOutcome::Picked { entity: expect });
    assert_eq!(handle_event_mouse_move(w, to), Some(expect));
    controls(w, false, true);
    handle_event_release(w);
    assert!(w.entities[expect].placed);
}

#[test]
fn rune_snaps_into_a_slot() {
    let mut w = scene();
    drag(&mut w, Vec2I { x: -530, y: -290 }, Vec2I { x: 350, y: -100 }, 0);
    let r = handle_collision_rune_with_rune_slot(&mut w, &vec![pair(0, 11)]);
    assert_eq!(r, RuneSlotOutcome::RunePlaced { rune: 0, slot: 11, replaced: None });
    let e = &w.entities[0];
    assert_eq!(e.parent, Some(11));
    assert_eq!(e.transform.pos, Vec2I { x: 0, y: 0 });
    assert_eq!(e.transform.z, 1);
    // the slot's world scale is 1.3; the rune cancels it: 1000000 / 1300
    assert_eq!(e.transform.scale, 769);
    assert_eq!(e.rune.as_ref().unwrap().affected_entity, Some(12));
    assert!(!e.placed);
}

#[test]
fn rune_returns_home_when_it_misses() {
    let mut w = scene();
    drag(&mut w, Vec2I { x: -530, y: -290 }, Vec2I { x: 0, y: 0 }, 0);
    let r = handle_collision_rune_with_rune_slot(&mut w, &vec![]);
    assert_eq!(r, RuneSlotOutcome::RuneReturned { rune: 0 });
    assert_eq!(w.entities[0].transform.pos, Vec2I { x: -530, y: -290 });
    assert!(!w.entities[0].placed);
}

#[test]
fn second_rune_pushes_the_first_out_of_the_slot() {
    let mut w = scene();
    drag(&mut w, Vec2I { x: -530, y: -290 }, Vec2I { x: 350, y: -100 }, 0);
    handle_collision_rune_with_rune_slot(&mut w, &vec![pair(0, 11)]);
    drag(&mut w, Vec2I { x: -380, y: -290 }, Vec2I { x: 350, y: -100 }, 1);
    let r = handle_collision_rune_with_rune_slot(&mut w, &vec![pair(1, 11), pair(1, 0)]);
    assert_eq!(r, RuneSlotOutcome::RunePlaced { rune: 1, slot: 11, replaced: Some(0) });
    // the first rune is detached and back at its resting place
    let e0 = &w.entities[0];
    assert_eq!(e0.parent, None);
    assert_eq!(e0.transform.pos, Vec2I { x: -530, y: -290 });
    assert_eq!(e0.transform.z, 100);
    assert_eq!(e0.transform.scale, 1000);
    assert_eq!(e0.rune.as_ref().unwrap().affected_entity, None);
    // the second sits in the slot
    assert_eq!(w.entities[1].parent, Some(11));
    assert_eq!(w.entities[1].rune.as_ref().unwrap().affected_entity, Some(12));
}

#[test]
fn ball_is_loaded_and_fired() {
    let mut w = scene();
    drag(&mut w, Vec2I { x: 350, y: -296 }, Vec2I { x: 580, y: -100 }, 2);
    let r = handle_collision_ball_with_ball_firing_thingy(&mut w, &vec![pair(2, 5)]);
    assert_eq!(r, BallFiringOutcome::BallFired { ball: 2, thingy: 5 });
    let e = &w.entities[2];
    assert!(e.blue_ball);
    assert!(!e.pickable);
    assert_eq!(e.tint, Tint::MagicalBlue);
    assert_eq!(e.transform.pos, Vec2I { x: 580, y: -100 });
    assert_eq!(e.velocity, Vec2I { x: -200, y: 0 });
    assert!(w.player.waiting_for_machine);
}

#[test]
fn ball_returns_home_when_it_misses() {
    let mut w = scene();
    drag(&mut w, Vec2I { x: 350, y: -296 }, Vec2I { x: 0, y: 0 }, 2);
    let r = handle_collision_ball_with_ball_firing_thingy(&mut w, &vec![]);
    assert_eq!(r, BallFiringOutcome::BallReturned { ball: 2 });
    assert_eq!(w.entities[2].transform.pos, Vec2I { x: 350, y: -296 });
    assert!(!w.entities[2].blue_ball);
    assert!(!w.player.waiting_for_machine);
}

#[test]
fn two_placed_balls_stall_the_firing_rule() {
    let mut w = scene();
    w.entities[2].placed = true;
    w.entities[3].placed = true;
    let r = handle_collision_ball_with_ball_firing_thingy(&mut w, &vec![pair(2, 5)]);
    assert_eq!(r, BallFiringOutcome::NotApplicable);
    assert!(w.entities[2].placed && w.entities[3].placed);
}

#[test]
fn loose_rune_does_not_consume_the_ball() {
    let mut w = scene();
    drag(&mut w, Vec2I { x: 350, y: -296 }, Vec2I { x: 580, y: -100 }, 2);
    handle_collision_ball_with_ball_firing_thingy(&mut w, &vec![pair(2, 5)]);
    // rune 1 lies at its resting place, aimed at nothing
    let r = handle_collision_blue_ball_and_runes(&mut w, &vec![pair(2, 1)]);
    assert_eq!(r, BlueBallRuneOutcome::NoContact { ball: 2 });
    assert!(w.entities[2].alive);
}

#[test]
fn machine_runs_to_the_donut() {
    let mut w = scene();
    // seat both runes
    drag(&mut w, Vec2I { x: -530, y: -290 }, Vec2I { x: 350, y: -100 }, 0);
    handle_collision_rune_with_rune_slot(&mut w, &vec![pair(0, 11)]);
    drag(&mut w, Vec2I { x: -380, y: -290 }, Vec2I { x: -550, y: -50 }, 1);
    let seated = handle_collision_rune_with_rune_slot(&mut w, &vec![pair(1, 13)]);
    assert_eq!(seated, RuneSlotOutcome::RunePlaced { rune: 1, slot: 13, replaced: None });
    // load and fire a ball
    drag(&mut w, Vec2I { x: 350, y: -296 }, Vec2I { x: 580, y: -100 }, 2);
    handle_collision_ball_with_ball_firing_thingy(&mut w, &vec![pair(2, 5)]);
    // the ball meets the rune seated on the card machine
    let taken = handle_collision_blue_ball_and_runes(&mut w, &vec![pair(2, 0)]);
    assert_eq!(taken, BlueBallRuneOutcome::EffectTaken { ball: 2, rune: 0, affected: 12 });
    assert!(!w.entities[2].alive);
    let eff = w.entities[12].rune_effect.as_ref().unwrap();
    assert_eq!(eff.rune_effect_type, RuneEffectType::MoveUp);
    // the card rises for a second: 200 units per second
    apply_rune_effects(&mut w, 1_000_000);
    assert_eq!(w.entities[12].transform.pos, Vec2I { x: 350, y: 100 });
    // the card reaches its trigger star
    let touched = handle_collision_rune_effect_with_trigger_star(&mut w, &vec![pair(12, 19)]);
    assert_eq!(
        touched,
        StarContactOutcome::StarTouched {
            star: 19,
            affected: 12,
            slot: Some(11),
            signal: MachineSignal::Activated { target: 13 },
        }
    );
    assert_eq!(w.entities[19].tint, Tint::MagicalBlue);
    assert!(w.entities[12].rune_effect.is_none());
    // the used-up rune burns out
    assert_eq!(w.entities[0].tint, Tint::BurnedOut);
    // the star activates the letter machine's slot
    let forwarded = handle_event_trigger_star_activated(&mut w, 13);
    assert_eq!(forwarded, TriggerOutcome::EffectForwarded { slot: 13, rune: 1, part: 14 });
    let eff14 = w.entities[14].rune_effect.as_ref().unwrap();
    assert_eq!(eff14.rune_effect_type, RuneEffectType::MoveRight);
    // the letter slides right for half a second: 100 units
    apply_rune_effects(&mut w, 500_000);
    assert_eq!(w.entities[14].transform.pos, Vec2I { x: -400, y: -50 });
    // the letter reaches the second star, which points at the donut circle
    let touched2 = handle_collision_rune_effect_with_trigger_star(&mut w, &vec![pair(14, 20)]);
    assert_eq!(
        touched2,
        StarContactOutcome::StarTouched {
            star: 20,
            affected: 14,
            slot: Some(13),
            signal: MachineSignal::Activated { target: 6 },
        }
    );
    assert_eq!(w.entities[1].tint, Tint::BurnedOut);
    // activating the circle summons the donut and wins the game
    let won = handle_event_trigger_star_activated(&mut w, 6);
    assert_eq!(won, TriggerOutcome::DonutSummoned { circle: 6 });
    assert!(w.player.game_over);
    assert!(!w.player.waiting_for_machine);
    assert_eq!(w.entities.len(), 25);
    for (i, z, s) in [(22usize, 76i64, 80i64), (23, 77, 70), (24, 78, 70)] {
        let d = &w.entities[i];
        assert!(d.donut_circle);
        assert_eq!(d.transform.pos, Vec2I { x: 0, y: -280 });
        assert_eq!(d.transform.z, z);
        assert_eq!(d.custom_size, Some(Vec2I { x: s, y: s }));
    }
}

#[test]
fn stray_ball_fails_the_machine() {
    let mut w = scene();
    drag(&mut w, Vec2I { x: 350, y: -296 }, Vec2I { x: 580, y: -100 }, 2);
    handle_collision_ball_with_ball_firing_thingy(&mut w, &vec![pair(2, 5)]);
    let r = handle_collision_blue_ball_with_trigger_star(&mut w, &vec![pair(2, 21)]);
    assert_eq!(r, BallStarOutcome::BallLost { ball: 2 });
    assert!(!w.entities[2].alive);
    let reset = handle_event_machine_failed(&mut w);
    assert_eq!(reset, ResetOutcome::Reset { out_of_balls: false });
    assert!(!w.player.waiting_for_machine);
    assert!(!w.player.game_over);
}

#[test]
fn reset_sends_everything_home() {
    let mut w = scene();
    drag(&mut w, Vec2I { x: -530, y: -290 }, Vec2I { x: 350, y: -100 }, 0);
    handle_collision_rune_with_rune_slot(&mut w, &vec![pair(0, 11)]);
    drag(&mut w, Vec2I { x: 350, y: -296 }, Vec2I { x: 580, y: -100 }, 2);
    handle_collision_ball_with_ball_firing_thingy(&mut w, &vec![pair(2, 5)]);
    // the machine moves its parts and tints a star before failing
    w.entities[12].transform.pos = Vec2I { x: 999, y: 5 };
    w.entities[14].transform.pos = Vec2I { x: -7, y: 8 };
    w.entities[19].tint = Tint::MagicalBlue;
    let reset = handle_event_machine_failed(&mut w);
    assert_eq!(reset, ResetOutcome::Reset { out_of_balls: false });
    // the seated rune is detached and home again
    let e0 = &w.entities[0];
    assert_eq!(e0.parent, None);
    assert_eq!(e0.transform.pos, Vec2I { x: -530, y: -290 });
    assert_eq!(e0.transform.scale, 1000);
    assert_eq!(e0.rune.as_ref().unwrap().affected_entity, None);
    assert_eq!(e0.tint, Tint::Normal);
    // both machine parts are back at their starts
    assert_eq!(w.entities[12].transform.pos, Vec2I { x: 350, y: -100 });
    assert_eq!(w.entities[14].transform.pos, Vec2I { x: -500, y: -50 });
    // the stars are white again
    assert_eq!(w.entities[19].tint, Tint::Normal);
}

#[test]
fn losing_the_last_ball_ends_the_game() {
    let mut w = scene();
    w.entities[3].alive = false;
    w.entities[4].alive = false;
    drag(&mut w, Vec2I { x: 350, y: -296 }, Vec2I { x: 580, y: -100 }, 2);
    handle_collision_ball_with_ball_firing_thingy(&mut w, &vec![pair(2, 5)]);
    handle_collision_blue_ball_with_trigger_star(&mut w, &vec![pair(2, 21)]);
    let reset = handle_event_machine_failed(&mut w);
    assert_eq!(reset, ResetOutcome::Reset { out_of_balls: true });
    assert!(w.player.game_over);
}

#[test]
fn star_with_no_follow_up_signals_failure() {
    let mut w = scene();
    w.player.waiting_for_machine = true;
    w.entities[12].rune_effect = w.entities[0].rune.as_ref().map(|r| r.rune_effect);
    let touched = handle_collision_rune_effect_with_trigger_star(&mut w, &vec![pair(12, 21)]);
    assert_eq!(
        touched,
        StarContactOutcome::StarTouched {
            star: 21,
            affected: 12,
            slot: Some(11),
            signal: MachineSignal::MachineFailed,
        }
    );
}

#[test]
fn activation_of_an_empty_slot_fails() {
    let mut w = scene();
    w.player.waiting_for_machine = true;
    let r = handle_event_trigger_star_activated(&mut w, 13);
    assert_eq!(r, TriggerOutcome::Failed);
}

#[test]
fn activation_while_idle_does_nothing() {
    let mut w = scene();
    let r = handle_event_trigger_star_activated(&mut w, 6);
    assert_eq!(r, TriggerOutcome::NotRunning);
    assert!(!w.player.game_over);
    let failed = handle_event_machine_failed(&mut w);
    assert_eq!(failed, ResetOutcome::NotRunning);
}

#[test]
fn star_contacts_are_ignored_while_idle() {
    let mut w = scene();
    w.entities[12].rune_effect = w.entities[0].rune.as_ref().map(|r| r.rune_effect);
    let r = handle_collision_rune_effect_with_trigger_star(&mut w, &vec![pair(12, 19)]);
    assert_eq!(r, StarContactOutcome::NotRunning);
    assert_eq!(w.entities[19].tint, Tint::Normal);
}

#[test]
fn movement_truncates_toward_zero() {
    let mut w = scene();
    let eff = rune_machine::world::RuneEffect {
        rune_effect_type: RuneEffectType::MoveDown,
        rune_effect_move_speed: Some(Vec2I { x: 0, y: -150 }),
    };
    w.entities[12].rune_effect = Some(eff);
    // -150 units per second for 10 ms is -1.5 units: one whole unit
    apply_rune_effects(&mut w, 10_000);
    assert_eq!(w.entities[12].transform.pos, Vec2I { x: 350, y: -101 });
}

#[test]
fn movement_stops_at_the_world_border() {
    let mut w = scene();
    let eff = rune_machine::world::RuneEffect {
        rune_effect_type: RuneEffectType::MoveRight,
        rune_effect_move_speed: Some(Vec2I { x: 1_000_000, y: 0 }),
    };
    w.entities[12].rune_effect = Some(eff);
    w.entities[12].transform.pos = Vec2I { x: 999_999_999, y: 0 };
    apply_rune_effects(&mut w, 10_000_000);
    assert_eq!(w.entities[12].transform.pos.x, 1_000_000_000);
}

#[test]
fn effect_without_speed_moves_nothing() {
    let mut w = scene();
    let eff = rune_machine::world::RuneEffect {
        rune_effect_type: RuneEffectType::MoveUp,
        rune_effect_move_speed: None,
    };
    w.entities[12].rune_effect = Some(eff);
    apply_rune_effects(&mut w, 1_000_000);
    assert_eq!(w.entities[12].transform.pos, Vec2I { x: 350, y: -100 });
}

#[test]
fn activation_needs_a_single_donut_circle() {
    let mut w = scene();
    w.player.waiting_for_machine = true;
    // a second circle leaves the rule without its single subject
    w.entities[7].donut_circle = true;
    let r = handle_event_trigger_star_activated(&mut w, 6);
    assert_eq!(r, TriggerOutcome::NotRunning);
    assert!(!w.player.game_over);
}
