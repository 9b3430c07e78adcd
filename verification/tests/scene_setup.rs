//! The opening scene, sprite sizes and collider resolution.

use rune_machine::collide::add_colliders;
use rune_machine::collide::AssetInfo;
use rune_machine::collide::ColliderShape;
use rune_machine::geom::Vec2I;
use rune_machine::input::calculate_sprite_size;
use rune_machine::scene::setup_mvp_scene;
use rune_machine::world::global_transform;
use rune_machine::world::set_image_size;
use rune_machine::world::set_translation;
use rune_machine::world::RuneEffectType;
use rune_machine::world::Tint;

#[test]
fn scene_has_all_gameplay_entities() {
    let w = setup_mvp_scene();
    assert_eq!(w.entities.len(), 22);
    assert!(w.player.can_pick);
    assert!(!w.player.attempts_pick);
    assert!(!w.player.waiting_for_machine);
    assert!(!w.player.game_over);

    // the two movement runes
    let r0 = &w.entities[0];
    let rd0 = r0.rune.as_ref().unwrap();
    assert_eq!(rd0.default_position, Vec2I { x: -530, y: -290 });
    assert_eq!(rd0.rune_effect.rune_effect_type, RuneEffectType::MoveUp);
    assert_eq!(rd0.rune_effect.rune_effect_move_speed, Some(Vec2I { x: 0, y: 200 }));
    assert!(r0.pickable);
    assert_eq!(r0.tint, Tint::Normal);
    let rd1 = w.entities[1].rune.as_ref().unwrap();
    assert_eq!(rd1.rune_effect.rune_effect_type, RuneEffectType::MoveRight);
    assert_eq!(rd1.rune_effect.rune_effect_move_speed, Some(Vec2I { x: 200, y: 0 }));

    // the three grey balls and the firing mechanism
    assert_eq!(w.entities[2].grey_ball, Some(Vec2I { x: 350, y: -296 }));
    assert_eq!(w.entities[3].grey_ball, Some(Vec2I { x: 450, y: -296 }));
    assert_eq!(w.entities[4].grey_ball, Some(Vec2I { x: 550, y: -296 }));
    assert_eq!(w.entities[5].ball_firing_thingy, Some(Vec2I { x: -200, y: 0 }));
    assert_eq!(w.entities[5].transform.pos, Vec2I { x: 580, y: -100 });

    // the donut circle
    assert!(w.entities[6].donut_circle);
    assert_eq!(w.entities[6].transform.pos, Vec2I { x: 0, y: -280 });

    // the two machine parts and their slots
    assert!(w.entities[12].card && w.entities[12].machine_part);
    assert!(w.entities[14].letter && w.entities[14].machine_part);
    assert!(w.entities[11].rune_slot);
    assert_eq!(w.entities[11].parent, Some(12));
    assert_eq!(w.entities[11].transform.scale, 1300);
    assert!(w.entities[13].rune_slot);
    assert_eq!(w.entities[13].parent, Some(14));

    // the trigger stars chain card machine -> letter slot -> donut circle
    assert_eq!(w.entities[19].star_trigger.as_ref().unwrap().follow_up_entity, Some(13));
    assert_eq!(w.entities[20].star_trigger.as_ref().unwrap().follow_up_entity, Some(6));
    assert_eq!(w.entities[21].star_trigger.as_ref().unwrap().follow_up_entity, None);
}

#[test]
fn slot_world_transform_composes_with_its_part() {
    let w = setup_mvp_scene();
    // slot 11 sits centered on the ace of hearts at (350, -100), scaled 1.3
    let xf = global_transform(&w, 11);
    assert_eq!(xf.pos, Vec2I { x: 350, y: -100 });
    assert_eq!(xf.scale, 1300);
    // a top-level entity keeps its own transform
    let xf5 = global_transform(&w, 5);
    assert_eq!(xf5.pos, Vec2I { x: 580, y: -100 });
    assert_eq!(xf5.scale, 1000);
}

#[test]
fn sprite_size_prefers_forced_size_then_image_then_unit() {
    let forced = calculate_sprite_size(
        Some(Vec2I { x: 100, y: 100 }),
        Some(Vec2I { x: 64, y: 64 }),
        1300,
    );
    assert_eq!(forced, Vec2I { x: 130, y: 130 });
    let from_image = calculate_sprite_size(None, Some(Vec2I { x: 64, y: 48 }), 1000);
    assert_eq!(from_image, Vec2I { x: 64, y: 48 });
    let fallback = calculate_sprite_size(None, None, 2000);
    assert_eq!(fallback, Vec2I { x: 2, y: 2 });
}

#[test]
fn colliders_resolve_once_images_load() {
    let mut w = setup_mvp_scene();
    let mut assets = vec![AssetInfo { loaded: false, image_size: None }; w.entities.len()];
    // only the ball and the firing mechanism have loaded
    assets[2] = AssetInfo { loaded: true, image_size: Some(Vec2I { x: 64, y: 64 }) };
    assets[5] = AssetInfo { loaded: true, image_size: Some(Vec2I { x: 128, y: 128 }) };
    let colliders = add_colliders(&mut w, &assets);
    assert_eq!(colliders.len(), 2);
    // the grey ball: full-size circle, radius half of 64
    assert_eq!(colliders[0].0, 2);
    assert_eq!(colliders[0].1, ColliderShape::Circle { radius: 32 });
    // the firing mechanism: circle shrunk to 0.4, radius 64 * 400 / 1000
    assert_eq!(colliders[1].0, 5);
    assert_eq!(colliders[1].1, ColliderShape::Circle { radius: 25 });
    // resolved entities stop waiting, the others keep waiting
    assert!(w.entities[2].add_collider.is_none());
    assert!(w.entities[5].add_collider.is_none());
    assert!(w.entities[0].add_collider.is_some());
    // a second pass with the same assets resolves nothing more for them
    let again = add_colliders(&mut w, &assets);
    assert!(again.is_empty());
}

#[test]
fn rectangle_collider_scales_sprite_and_slot() {
    let mut w = setup_mvp_scene();
    let mut assets = vec![AssetInfo { loaded: false, image_size: None }; w.entities.len()];
    // the card slot: sprite 64 wide under its own 1.3 scale, halved by its factor
    assets[11] = AssetInfo { loaded: true, image_size: Some(Vec2I { x: 64, y: 64 }) };
    let colliders = add_colliders(&mut w, &assets);
    assert_eq!(colliders.len(), 1);
    // 64 * 1300 / 1000 = 83, then 83 * 500 / 1000 = 41
    assert_eq!(colliders[0].1, ColliderShape::Rectangle { width: 41, height: 41 });
}

#[test]
fn image_sizes_and_positions_are_recorded() {
    let mut w = setup_mvp_scene();
    set_image_size(&mut w, 0, Vec2I { x: 64, y: 64 });
    assert_eq!(w.entities[0].image_size, Some(Vec2I { x: 64, y: 64 }));
    set_translation(&mut w, 2, Vec2I { x: 17, y: -3 });
    assert_eq!(w.entities[2].transform.pos, Vec2I { x: 17, y: -3 });
    // depth is kept
    assert_eq!(w.entities[2].transform.z, 101);
}
