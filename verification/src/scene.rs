//! The opening scene: every gameplay entity of the puzzle, in spawn order.
//!
//! The scene holds two movement runes, three grey balls, a ball firing
//! mechanism, the magic donut circle, a row of cards and a row of letters
//! (one of each a machine part carrying a rune slot), and three trigger
//! stars chained card machine -> letter slot -> donut circle, with a third
//! star that fails the machine. Purely decorative sprites (explanations,
//! panels, connectors) carry no components the rules read and are left to
//! the renderer.

use vstd::prelude::*;

use crate::geom::Vec2I;
use crate::geom::SCALE_ONE;
use crate::world::AddCollider;
use crate::world::ColliderType;
use crate::world::Entity;
use crate::world::GameWorld;
use crate::world::PlayerState;
use crate::world::RuneData;
use crate::world::RuneEffect;
use crate::world::RuneEffectType;
use crate::world::StarTrigger;
use crate::world::Transform2;
use crate::world::blank_entity;
use crate::world::blank_spec;
use crate::world::entity_ok;
use crate::world::wf;

verus! {

/// Drawing depth of machine parts, cards and letters.
pub const RUNE_MACHINE_RENDER_LAYER: i64 = 50;

/// Drawing depth of rune slots, just above their machine part.
pub const RUNE_SLOT_RENDER_LAYER: i64 = 51;

/// Drawing depth of the magic donut circle.
pub const DONUT_CIRCLE_RENDER_LAYER: i64 = 75;

/// Drawing depth of a summoned donut's base.
pub const DONUT_BASE_RENDER_LAYER: i64 = 76;

/// Drawing depth of a summoned donut's frosting.
pub const DONUT_FROSTING_RENDER_LAYER: i64 = 77;

/// Drawing depth of a summoned donut's sprinkles.
pub const DONUT_SPRINKLES_RENDER_LAYER: i64 = 78;

/// Drawing depth of the ball firing mechanism.
pub const BALL_FIRING_THINGY_RENDER_LAYER: i64 = 99;

/// Drawing depth of runes at rest or in hand.
pub const RUNE_RENDER_LAYER: i64 = 100;

/// Drawing depth of balls.
pub const BALL_RENDER_LAYER: i64 = 101;

/// Where the card machine part starts, and returns to on reset.
pub const CARD_MACHINE_START_X: i64 = 350;

/// See `CARD_MACHINE_START_X`.
pub const CARD_MACHINE_START_Y: i64 = -100;

/// Where the letter machine part starts, and returns to on reset.
pub const LETTER_MACHINE_START_X: i64 = -500;

/// See `LETTER_MACHINE_START_X`.
pub const LETTER_MACHINE_START_Y: i64 = -50;

/// Index of the letter machine part's rune slot, the follow-up of the
/// first trigger star.
pub const LETTER_SLOT_INDEX: usize = 13;

/// Index of the magic donut circle, the follow-up of the second trigger
/// star.
pub const DONUT_CIRCLE_INDEX: usize = 6;

/// A pickable movement rune resting at `(x, y)`.
pub open spec fn spec_rune(x: int, y: int, kind: RuneEffectType, speed: Vec2I) -> Entity {
    Entity {
        transform: Transform2 { pos: Vec2I { x: x as i64, y: y as i64 }, z: RUNE_RENDER_LAYER, scale: SCALE_ONE },
        render_layer: RUNE_RENDER_LAYER,
        pickable: true,
        rune: Some(
            RuneData {
                default_position: Vec2I { x: x as i64, y: y as i64 },
                affected_entity: None,
                rune_effect: RuneEffect {
                    rune_effect_type: kind,
                    rune_effect_move_speed: Some(speed),
                },
            },
        ),
        add_collider: Some(
            AddCollider { collider_scale: SCALE_ONE, collider_type: ColliderType::Rectangle },
        ),
        ..blank_spec()
    }
}

/// A pickable grey ball resting at `(x, y)`.
pub open spec fn spec_grey_ball(x: int, y: int) -> Entity {
    Entity {
        transform: Transform2 { pos: Vec2I { x: x as i64, y: y as i64 }, z: BALL_RENDER_LAYER, scale: SCALE_ONE },
        render_layer: BALL_RENDER_LAYER,
        pickable: true,
        grey_ball: Some(Vec2I { x: x as i64, y: y as i64 }),
        add_collider: Some(
            AddCollider { collider_scale: SCALE_ONE, collider_type: ColliderType::Circle },
        ),
        ..blank_spec()
    }
}

/// A plain card of the card row.
pub open spec fn spec_card(x: int, y: int) -> Entity {
    Entity {
        transform: Transform2 {
            pos: Vec2I { x: x as i64, y: y as i64 },
            z: RUNE_MACHINE_RENDER_LAYER,
            scale: SCALE_ONE,
        },
        render_layer: RUNE_MACHINE_RENDER_LAYER,
        card: true,
        ..blank_spec()
    }
}

/// A plain letter of the letter row, drawn at a forced size.
pub open spec fn spec_letter(x: int, y: int) -> Entity {
    Entity {
        transform: Transform2 {
            pos: Vec2I { x: x as i64, y: y as i64 },
            z: RUNE_MACHINE_RENDER_LAYER,
            scale: SCALE_ONE,
        },
        render_layer: RUNE_MACHINE_RENDER_LAYER,
        letter: true,
        custom_size: Some(Vec2I { x: 100, y: 100 }),
        ..blank_spec()
    }
}

/// A rune slot attached to the machine part at index `part`, offset by
/// `(x, y)` in the part's frame and enlarged a little.
pub open spec fn spec_slot(x: int, y: int, part: usize) -> Entity {
    Entity {
        transform: Transform2 { pos: Vec2I { x: x as i64, y: y as i64 }, z: 1, scale: 1300 },
        render_layer: RUNE_SLOT_RENDER_LAYER,
        parent: Some(part),
        rune_slot: true,
        add_collider: Some(
            AddCollider { collider_scale: 500, collider_type: ColliderType::Rectangle },
        ),
        ..blank_spec()
    }
}

/// A trigger star that activates `follow_up` when hit, or fails the
/// machine when it has none.
pub open spec fn spec_star(x: int, y: int, follow_up: Option<usize>) -> Entity {
    Entity {
        transform: Transform2 {
            pos: Vec2I { x: x as i64, y: y as i64 },
            z: RUNE_MACHINE_RENDER_LAYER,
            scale: SCALE_ONE,
        },
        render_layer: RUNE_MACHINE_RENDER_LAYER,
        custom_size: Some(Vec2I { x: 60, y: 60 }),
        star_trigger: Some(StarTrigger { follow_up_entity: follow_up }),
        add_collider: Some(
            AddCollider { collider_scale: SCALE_ONE, collider_type: ColliderType::Rectangle },
        ),
        ..blank_spec()
    }
}

/// The player before the first input: able to pick, attempting nothing.
pub open spec fn initial_player() -> PlayerState {
    PlayerState {
        can_pick: true,
        attempts_pick: false,
        attempts_release: false,
        waiting_for_machine: false,
        game_over: false,
    }
}

/// Every gameplay entity of the opening scene, in spawn order.
pub open spec fn initial_entities() -> Seq<Entity> {
    seq![
        spec_rune(-530, -290, RuneEffectType::MoveUp, Vec2I { x: 0, y: 200 }),
        spec_rune(-380, -290, RuneEffectType::MoveRight, Vec2I { x: 200, y: 0 }),
        spec_grey_ball(350, -296),
        spec_grey_ball(450, -296),
        spec_grey_ball(550, -296),
        Entity {  // the ball firing mechanism, aimed to the left
            transform: Transform2 {
                pos: Vec2I { x: 580, y: (-100) as i64 },
                z: BALL_FIRING_THINGY_RENDER_LAYER,
                scale: SCALE_ONE,
            },
            render_layer: BALL_FIRING_THINGY_RENDER_LAYER,
            ball_firing_thingy: Some(Vec2I { x: (-200) as i64, y: 0 }),
            add_collider: Some(
                AddCollider { collider_scale: 400, collider_type: ColliderType::Circle },
            ),
            ..blank_spec()
        },
        Entity {  // the magic donut circle
            transform: Transform2 {
                pos: Vec2I { x: 0, y: (-280) as i64 },
                z: DONUT_CIRCLE_RENDER_LAYER,
                scale: SCALE_ONE,
            },
            render_layer: DONUT_CIRCLE_RENDER_LAYER,
            donut_circle: true,
            custom_size: Some(Vec2I { x: 200, y: 200 }),
            ..blank_spec()
        },
        spec_card(-450, 200),
        spec_card(-250, 200),
        spec_card(-50, 200),
        spec_card(150, 200),
        spec_slot(0, 0, 12),
        Entity {  // the ace of hearts, the card machine part
            transform: Transform2 {
                pos: Vec2I { x: CARD_MACHINE_START_X, y: CARD_MACHINE_START_Y },
                z: RUNE_MACHINE_RENDER_LAYER,
                scale: SCALE_ONE,
            },
            render_layer: RUNE_MACHINE_RENDER_LAYER,
            card: true,
            machine_part: true,
            add_collider: Some(
                AddCollider { collider_scale: SCALE_ONE, collider_type: ColliderType::Rectangle },
            ),
            ..blank_spec()
        },
        spec_slot(-50, 0, 14),
        Entity {  // the letter D, the letter machine part
            transform: Transform2 {
                pos: Vec2I { x: LETTER_MACHINE_START_X, y: LETTER_MACHINE_START_Y },
                z: RUNE_MACHINE_RENDER_LAYER,
                scale: SCALE_ONE,
            },
            render_layer: RUNE_MACHINE_RENDER_LAYER,
            letter: true,
            machine_part: true,
            custom_size: Some(Vec2I { x: 100, y: 100 }),
            add_collider: Some(
                AddCollider { collider_scale: SCALE_ONE, collider_type: ColliderType::Rectangle },
            ),
            ..blank_spec()
        },
        spec_letter(-200, -50),
        spec_letter(-90, -50),
        spec_letter(20, -50),
        spec_letter(130, -50),
        spec_star(350, 320, Some(LETTER_SLOT_INDEX)),
        spec_star(-230, -120, Some(DONUT_CIRCLE_INDEX)),
        spec_star(530, 0, None),
    ]
}

/// Builds the opening scene: the player able to pick, and the entities of
/// `initial_entities`, well formed.
pub fn setup_mvp_scene() -> (w: GameWorld)
    ensures
        w.player == initial_player(),
        w.entities@ == initial_entities(),
        wf(w),
{
    let player = PlayerState {
        can_pick: true,
        attempts_pick: false,
        attempts_release: false,
        waiting_for_machine: false,
        game_over: false,
    };
    let mut v: Vec<Entity> = Vec::new();
    let base = blank_entity();

    // the two movement runes
    v.push(
        Entity {
            transform: Transform2 {
                pos: Vec2I { x: -530, y: -290 },
                z: RUNE_RENDER_LAYER,
                scale: SCALE_ONE,
            },
            render_layer: RUNE_RENDER_LAYER,
            pickable: true,
            rune: Some(
                RuneData {
                    default_position: Vec2I { x: -530, y: -290 },
                    affected_entity: None,
                    rune_effect: RuneEffect {
                        rune_effect_type: RuneEffectType::MoveUp,
                        rune_effect_move_speed: Some(Vec2I { x: 0, y: 200 }),
                    },
                },
            ),
            add_collider: Some(
                AddCollider { collider_scale: SCALE_ONE, collider_type: ColliderType::Rectangle },
            ),
            ..base
        },
    );
    v.push(
        Entity {
            transform: Transform2 {
                pos: Vec2I { x: -380, y: -290 },
                z: RUNE_RENDER_LAYER,
                scale: SCALE_ONE,
            },
            render_layer: RUNE_RENDER_LAYER,
            pickable: true,
            rune: Some(
                RuneData {
                    default_position: Vec2I { x: -380, y: -290 },
                    affected_entity: None,
                    rune_effect: RuneEffect {
                        rune_effect_type: RuneEffectType::MoveRight,
                        rune_effect_move_speed: Some(Vec2I { x: 200, y: 0 }),
                    },
                },
            ),
            add_collider: Some(
                AddCollider { collider_scale: SCALE_ONE, collider_type: ColliderType::Rectangle },
            ),
            ..base
        },
    );

    // the three grey balls
    let mut bx: i64 = 350;
    v.push(
        Entity {
            transform: Transform2 {
                pos: Vec2I { x: bx, y: -296 },
                z: BALL_RENDER_LAYER,
                scale: SCALE_ONE,
            },
            render_layer: BALL_RENDER_LAYER,
            pickable: true,
            grey_ball: Some(Vec2I { x: bx, y: -296 }),
            add_collider: Some(
                AddCollider { collider_scale: SCALE_ONE, collider_type: ColliderType::Circle },
            ),
            ..base
        },
    );
    bx = 450;
    v.push(
        Entity {
            transform: Transform2 {
                pos: Vec2I { x: bx, y: -296 },
                z: BALL_RENDER_LAYER,
                scale: SCALE_ONE,
            },
            render_layer: BALL_RENDER_LAYER,
            pickable: true,
            grey_ball: Some(Vec2I { x: bx, y: -296 }),
            add_collider: Some(
                AddCollider { collider_scale: SCALE_ONE, collider_type: ColliderType::Circle },
            ),
            ..base
        },
    );
    bx = 550;
    v.push(
        Entity {
            transform: Transform2 {
                pos: Vec2I { x: bx, y: -296 },
                z: BALL_RENDER_LAYER,
                scale: SCALE_ONE,
            },
            render_layer: BALL_RENDER_LAYER,
            pickable: true,
            grey_ball: Some(Vec2I { x: bx, y: -296 }),
            add_collider: Some(
                AddCollider { collider_scale: SCALE_ONE, collider_type: ColliderType::Circle },
            ),
            ..base
        },
    );

    // the ball firing mechanism
    v.push(
        Entity {
            transform: Transform2 {
                pos: Vec2I { x: 580, y: -100 },
                z: BALL_FIRING_THINGY_RENDER_LAYER,
                scale: SCALE_ONE,
            },
            render_layer: BALL_FIRING_THINGY_RENDER_LAYER,
            ball_firing_thingy: Some(Vec2I { x: -200, y: 0 }),
            add_collider: Some(
                AddCollider { collider_scale: 400, collider_type: ColliderType::Circle },
            ),
            ..base
        },
    );

    // the magic donut circle
    v.push(
        Entity {
            transform: Transform2 {
                pos: Vec2I { x: 0, y: -280 },
                z: DONUT_CIRCLE_RENDER_LAYER,
                scale: SCALE_ONE,
            },
            render_layer: DONUT_CIRCLE_RENDER_LAYER,
            donut_circle: true,
            custom_size: Some(Vec2I { x: 200, y: 200 }),
            ..base
        },
    );

    // the card row
    v.push(
        Entity {
            transform: Transform2 {
                pos: Vec2I { x: -450, y: 200 },
                z: RUNE_MACHINE_RENDER_LAYER,
                scale: SCALE_ONE,
            },
            render_layer: RUNE_MACHINE_RENDER_LAYER,
            card: true,
            ..base
        },
    );
    v.push(
        Entity {
            transform: Transform2 {
                pos: Vec2I { x: -250, y: 200 },
                z: RUNE_MACHINE_RENDER_LAYER,
                scale: SCALE_ONE,
            },
            render_layer: RUNE_MACHINE_RENDER_LAYER,
            card: true,
            ..base
        },
    );
    v.push(
        Entity {
            transform: Transform2 {
                pos: Vec2I { x: -50, y: 200 },
                z: RUNE_MACHINE_RENDER_LAYER,
                scale: SCALE_ONE,
            },
            render_layer: RUNE_MACHINE_RENDER_LAYER,
            card: true,
            ..base
        },
    );
    v.push(
        Entity {
            transform: Transform2 {
                pos: Vec2I { x: 150, y: 200 },
                z: RUNE_MACHINE_RENDER_LAYER,
                scale: SCALE_ONE,
            },
            render_layer: RUNE_MACHINE_RENDER_LAYER,
            card: true,
            ..base
        },
    );

    // the ace of hearts and its rune slot
    v.push(
        Entity {
            transform: Transform2 { pos: Vec2I { x: 0, y: 0 }, z: 1, scale: 1300 },
            render_layer: RUNE_SLOT_RENDER_LAYER,
            parent: Some(12),
            rune_slot: true,
            add_collider: Some(
                AddCollider { collider_scale: 500, collider_type: ColliderType::Rectangle },
            ),
            ..base
        },
    );
    v.push(
        Entity {
            transform: Transform2 {
                pos: Vec2I { x: CARD_MACHINE_START_X, y: CARD_MACHINE_START_Y },
                z: RUNE_MACHINE_RENDER_LAYER,
                scale: SCALE_ONE,
            },
            render_layer: RUNE_MACHINE_RENDER_LAYER,
            card: true,
            machine_part: true,
            add_collider: Some(
                AddCollider { collider_scale: SCALE_ONE, collider_type: ColliderType::Rectangle },
            ),
            ..base
        },
    );

    // the letter D and its rune slot
    v.push(
        Entity {
            transform: Transform2 { pos: Vec2I { x: -50, y: 0 }, z: 1, scale: 1300 },
            render_layer: RUNE_SLOT_RENDER_LAYER,
            parent: Some(14),
            rune_slot: true,
            add_collider: Some(
                AddCollider { collider_scale: 500, collider_type: ColliderType::Rectangle },
            ),
            ..base
        },
    );
    v.push(
        Entity {
            transform: Transform2 {
                pos: Vec2I { x: LETTER_MACHINE_START_X, y: LETTER_MACHINE_START_Y },
                z: RUNE_MACHINE_RENDER_LAYER,
                scale: SCALE_ONE,
            },
            render_layer: RUNE_MACHINE_RENDER_LAYER,
            letter: true,
            machine_part: true,
            custom_size: Some(Vec2I { x: 100, y: 100 }),
            add_collider: Some(
                AddCollider { collider_scale: SCALE_ONE, collider_type: ColliderType::Rectangle },
            ),
            ..base
        },
    );

    // the letters O, N, U, T
    let mut lx: i64 = -200;
    v.push(
        Entity {
            transform: Transform2 {
                pos: Vec2I { x: lx, y: -50 },
                z: RUNE_MACHINE_RENDER_LAYER,
                scale: SCALE_ONE,
            },
            render_layer: RUNE_MACHINE_RENDER_LAYER,
            letter: true,
            custom_size: Some(Vec2I { x: 100, y: 100 }),
            ..base
        },
    );
    lx = -90;
    v.push(
        Entity {
            transform: Transform2 {
                pos: Vec2I { x: lx, y: -50 },
                z: RUNE_MACHINE_RENDER_LAYER,
                scale: SCALE_ONE,
            },
            render_layer: RUNE_MACHINE_RENDER_LAYER,
            letter: true,
            custom_size: Some(Vec2I { x: 100, y: 100 }),
            ..base
        },
    );
    lx = 20;
    v.push(
        Entity {
            transform: Transform2 {
                pos: Vec2I { x: lx, y: -50 },
                z: RUNE_MACHINE_RENDER_LAYER,
                scale: SCALE_ONE,
            },
            render_layer: RUNE_MACHINE_RENDER_LAYER,
            letter: true,
            custom_size: Some(Vec2I { x: 100, y: 100 }),
            ..base
        },
    );
    lx = 130;
    v.push(
        Entity {
            transform: Transform2 {
                pos: Vec2I { x: lx, y: -50 },
                z: RUNE_MACHINE_RENDER_LAYER,
                scale: SCALE_ONE,
            },
            render_layer: RUNE_MACHINE_RENDER_LAYER,
            letter: true,
            custom_size: Some(Vec2I { x: 100, y: 100 }),
            ..base
        },
    );

    // the three trigger stars
    v.push(
        Entity {
            transform: Transform2 {
                pos: Vec2I { x: 350, y: 320 },
                z: RUNE_MACHINE_RENDER_LAYER,
                scale: SCALE_ONE,
            },
            render_layer: RUNE_MACHINE_RENDER_LAYER,
            custom_size: Some(Vec2I { x: 60, y: 60 }),
            star_trigger: Some(StarTrigger { follow_up_entity: Some(LETTER_SLOT_INDEX) }),
            add_collider: Some(
                AddCollider { collider_scale: SCALE_ONE, collider_type: ColliderType::Rectangle },
            ),
            ..base
        },
    );
    v.push(
        Entity {
            transform: Transform2 {
                pos: Vec2I { x: -230, y: -120 },
                z: RUNE_MACHINE_RENDER_LAYER,
                scale: SCALE_ONE,
            },
            render_layer: RUNE_MACHINE_RENDER_LAYER,
            custom_size: Some(Vec2I { x: 60, y: 60 }),
            star_trigger: Some(StarTrigger { follow_up_entity: Some(DONUT_CIRCLE_INDEX) }),
            add_collider: Some(
                AddCollider { collider_scale: SCALE_ONE, collider_type: ColliderType::Rectangle },
            ),
            ..base
        },
    );
    v.push(
        Entity {
            transform: Transform2 {
                pos: Vec2I { x: 530, y: 0 },
                z: RUNE_MACHINE_RENDER_LAYER,
                scale: SCALE_ONE,
            },
            render_layer: RUNE_MACHINE_RENDER_LAYER,
            custom_size: Some(Vec2I { x: 60, y: 60 }),
            star_trigger: Some(StarTrigger { follow_up_entity: None }),
            add_collider: Some(
                AddCollider { collider_scale: SCALE_ONE, collider_type: ColliderType::Rectangle },
            ),
            ..base
        },
    );

    let w = GameWorld { player, entities: v };
    proof {
        assert(w.entities@ =~= initial_entities());
        assert forall|k: int| 0 <= k < w.entities@.len() implies entity_ok(w.entities@, k) by {
            let s = initial_entities();
            assert(s.len() == 22);
        }
    }
    w
}

} // verus!
