//! Picking, dragging and dropping objects.

use rune_machine::geom::Vec2I;
use rune_machine::input::controls;
use rune_machine::input::handle_event_mouse_move;
use rune_machine::input::handle_event_pick;
use rune_machine::input::handle_event_release;
use rune_machine::input::PickOutcome;
use rune_machine::input::ReleaseOutcome;
use rune_machine::scene::setup_mvp_scene;
use rune_machine::world::set_image_size;
use rune_machine::world::GameWorld;

fn scene_with_rune_sprites() -> GameWorld {
    let mut w = setup_mvp_scene();
    set_image_size(&mut w, 0, Vec2I { x: 64, y: 64 });
    set_image_size(&mut w, 1, Vec2I { x: 64, y: 64 });
    set_image_size(&mut w, 2, Vec2I { x: 64, y: 64 });
    w
}

#[test]
fn controls_forward_press_and_release_edges() {
    let mut w = setup_mvp_scene();
    controls(&mut w, true, false);
    assert!(w.player.attempts_pick);
    assert!(!w.player.attempts_release);
    controls(&mut w, false, true);
    assert!(w.player.attempts_pick);
    assert!(w.player.attempts_release);
}

#[test]
fn controls_are_ignored_while_the_machine_runs() {
    let mut w = setup_mvp_scene();
    w.player.waiting_for_machine = true;
    controls(&mut w, true, true);
    assert!(!w.player.attempts_pick);
    assert!(!w.player.attempts_release);
}

#[test]
fn pick_needs_an_attempt() {
    let mut w = scene_with_rune_sprites();
    let r = handle_event_pick(&mut w, Vec2I { x: -530, y: -290 });
    assert_eq!(r, PickOutcome::NotAttempting);
    assert!(!w.entities[0].picked);
}

#[test]
fn pick_takes_the_object_under_the_click() {
    let mut w = scene_with_rune_sprites();
    controls(&mut w, true, false);
    let r = handle_event_pick(&mut w, Vec2I { x: -530, y: -290 });
    assert_eq!(r, PickOutcome::Picked { entity: 0 });
    assert!(w.entities[0].picked);
    assert!(!w.player.attempts_pick);
    assert!(!w.player.can_pick);
}

#[test]
fn pick_misses_outside_and_on_the_sprite_border() {
    let mut w = scene_with_rune_sprites();
    controls(&mut w, true, false);
    // the rune is 64 wide around x = -530: x = -498 is exactly on the border
    let r = handle_event_pick(&mut w, Vec2I { x: -498, y: -290 });
    assert_eq!(r, PickOutcome::NoHit);
    controls(&mut w, true, false);
    let r2 = handle_event_pick(&mut w, Vec2I { x: 0, y: 500 });
    assert_eq!(r2, PickOutcome::NoHit);
}

#[test]
fn mouse_move_drags_the_picked_object() {
    let mut w = scene_with_rune_sprites();
    controls(&mut w, true, false);
    handle_event_pick(&mut w, Vec2I { x: -530, y: -290 });
    let moved = handle_event_mouse_move(&mut w, Vec2I { x: 12, y: 34 });
    assert_eq!(moved, Some(0));
    assert_eq!(w.entities[0].transform.pos, Vec2I { x: 12, y: 34 });
    // depth is kept
    assert_eq!(w.entities[0].transform.z, 100);
}

#[test]
fn mouse_move_does_nothing_with_nothing_picked() {
    let mut w = scene_with_rune_sprites();
    let moved = handle_event_mouse_move(&mut w, Vec2I { x: 12, y: 34 });
    assert_eq!(moved, None);
}

#[test]
fn release_turns_picked_into_placed() {
    let mut w = scene_with_rune_sprites();
    controls(&mut w, true, false);
    handle_event_pick(&mut w, Vec2I { x: -530, y: -290 });
    controls(&mut w, false, true);
    let r = handle_event_release(&mut w);
    assert_eq!(r, ReleaseOutcome::Released { entity: 0 });
    assert!(!w.entities[0].picked);
    assert!(w.entities[0].placed);
    assert!(w.player.can_pick);
    assert!(!w.player.attempts_release);
}

#[test]
fn release_without_attempt_or_without_pick() {
    let mut w = scene_with_rune_sprites();
    let r = handle_event_release(&mut w);
    assert_eq!(r, ReleaseOutcome::NotAttempting);
    controls(&mut w, false, true);
    let r2 = handle_event_release(&mut w);
    assert_eq!(r2, ReleaseOutcome::NothingPicked);
    assert!(w.player.can_pick);
}

#[test]
fn no_picking_after_the_game_is_over() {
    let mut w = scene_with_rune_sprites();
    w.player.game_over = true;
    controls(&mut w, true, false);
    let r = handle_event_pick(&mut w, Vec2I { x: -530, y: -290 });
    assert_eq!(r, PickOutcome::NotAttempting);
}

#[test]
fn dragging_needs_a_single_picked_object() {
    let mut w = scene_with_rune_sprites();
    w.entities[0].picked = true;
    w.entities[1].picked = true;
    let moved = handle_event_mouse_move(&mut w, Vec2I { x: 1, y: 2 });
    assert_eq!(moved, None);
    assert_eq!(w.entities[0].transform.pos, Vec2I { x: -530, y: -290 });
}
