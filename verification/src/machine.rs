//! The running machine: rune effects moving machine parts, trigger-star
//! activations chaining to the next slot or to the donut, and the reset
//! when the machine fails.

use vstd::prelude::*;

use crate::geom::Vec2I;
use crate::geom::clamp_spec;
use crate::geom::clamp_coord;
use crate::geom::div_trunc;
use crate::geom::div_trunc_spec;
use crate::geom::MAX_STEP_MICROS;
use crate::geom::MICROS_PER_SEC;
use crate::geom::SCALE_ONE;
use crate::query::Query;
use crate::query::entity_matches;
use crate::query::find_first;
use crate::query::find_sole;
use crate::query::first_match;
use crate::query::has_sole_match;
use crate::query::query_matches;
use crate::query::sole_match;
use crate::query::lemma_first_match_from;
use crate::scene::DONUT_BASE_RENDER_LAYER;
use crate::scene::DONUT_FROSTING_RENDER_LAYER;
use crate::scene::DONUT_SPRINKLES_RENDER_LAYER;
use crate::scene::CARD_MACHINE_START_X;
use crate::scene::CARD_MACHINE_START_Y;
use crate::scene::LETTER_MACHINE_START_X;
use crate::scene::LETTER_MACHINE_START_Y;
use crate::world::Entity;
use crate::world::GameWorld;
use crate::world::PlayerState;
use crate::world::blank_entity;
use crate::world::blank_spec;
use crate::world::RuneData;
use crate::world::Tint;
use crate::world::Transform2;
use crate::world::entity_ok;
use crate::world::entity_parent_link;
use crate::world::lemma_parent_links_preserved;
use crate::world::same_link_fields;
use crate::world::wf;

verus! {

/// How far a speed carries in `dt` microseconds, truncating toward zero.
pub open spec fn disp_spec(speed: int, dt: int) -> int {
    div_trunc_spec(speed * dt, MICROS_PER_SEC as int)
}

/// The entity carries a movement effect with a speed: the machine moves
/// it.
pub open spec fn effect_applies(e: Entity) -> bool {
    &&& e.alive
    &&& e.rune_effect is Some
    &&& e.rune_effect.unwrap().rune_effect_move_speed is Some
}

/// One time step applied to one entity: carried by its effect's speed for
/// `dt` microseconds and kept on the world plane; anything without a
/// moving effect is untouched.
pub open spec fn step_spec(e: Entity, dt: u64) -> Entity {
    if effect_applies(e) {
        let sp = e.rune_effect.unwrap().rune_effect_move_speed.unwrap();
        Entity {
            transform: Transform2 {
                pos: Vec2I {
                    x: clamp_spec(e.transform.pos.x + disp_spec(sp.x as int, dt as int)) as i64,
                    y: clamp_spec(e.transform.pos.y + disp_spec(sp.y as int, dt as int)) as i64,
                },
                ..e.transform
            },
            ..e
        }
    } else {
        e
    }
}

/// Carries every entity that holds a movement effect by its speed for
/// `delta_micros` microseconds, clamped to the world plane.
pub fn apply_rune_effects(w: &mut GameWorld, delta_micros: u64)
    requires
        wf(*old(w)),
        delta_micros <= MAX_STEP_MICROS,
    ensures
        wf(*final(w)),
        final(w).player == old(w).player,
        final(w).entities@.len() == old(w).entities@.len(),
        forall|i: int|
            0 <= i < old(w).entities@.len() ==> final(w).entities@[i] == step_spec(
                old(w).entities@[i],
                delta_micros,
            ),
{
    let n = w.entities.len();
    let dt: i64 = delta_micros as i64;
    let mut i: usize = 0;
    while i < n
        invariant
            wf(*old(w)),
            n == old(w).entities@.len(),
            w.entities@.len() == n,
            w.player == old(w).player,
            0 <= i <= n,
            dt == delta_micros,
            0 <= dt <= MAX_STEP_MICROS,
            forall|j: int| 0 <= j < i ==> w.entities@[j] == step_spec(old(w).entities@[j], delta_micros),
            forall|j: int| i <= j < n ==> w.entities@[j] == old(w).entities@[j],
        decreases n - i,
    {
        proof {
            assert(entity_ok(old(w).entities@, i as int));
        }
        let e = w.entities[i];
        if e.alive {
            if let Some(ef) = e.rune_effect {
                if let Some(sp) = ef.rune_effect_move_speed {
                    proof {
                        assert(-10_000_000_000_000 <= sp.x * dt <= 10_000_000_000_000
                            && -10_000_000_000_000 <= sp.y * dt <= 10_000_000_000_000)
                            by (nonlinear_arith)
                            requires
                                -1_000_000 <= sp.x <= 1_000_000,
                                -1_000_000 <= sp.y <= 1_000_000,
                                0 <= dt <= 10_000_000,
                        ;
                    }
                    let dx = div_trunc(sp.x * dt, MICROS_PER_SEC);
                    let dy = div_trunc(sp.y * dt, MICROS_PER_SEC);
                    proof {
                        crate::geom::lemma_div_trunc_bound(
                            sp.x as int * dt as int,
                            MICROS_PER_SEC as int,
                            10_000_000_000_000,
                        );
                        crate::geom::lemma_div_trunc_bound(
                            sp.y as int * dt as int,
                            MICROS_PER_SEC as int,
                            10_000_000_000_000,
                        );
                    }
                    let mut e2 = e;
                    e2.transform.pos.x = clamp_coord(e.transform.pos.x + dx);
                    e2.transform.pos.y = clamp_coord(e.transform.pos.y + dy);
                    w.entities.set(i, e2);
                }
            }
        }
        i = i + 1;
    }
    proof {
        let s1 = old(w).entities@;
        let s2 = w.entities@;
        assert forall|k: int| 0 <= k < s1.len() implies same_link_fields(s1[k], s2[k])
            && entity_parent_link(s1, k) by {
            assert(entity_ok(s1, k));
            assert(s2[k] == step_spec(s1[k], delta_micros));
        }
        lemma_parent_links_preserved(s1, s2);
        assert forall|k: int| 0 <= k < s2.len() implies entity_ok(s2, k) by {
            assert(entity_ok(s1, k));
            assert(s2[k] == step_spec(s1[k], delta_micros));
        }
    }
}

/// What came of handling a machine-failed signal.
#[derive(Clone, Copy, PartialEq, Eq, Debug)]
pub enum ResetOutcome {
    /// The machine was not running, or the scene lacks its single card or
    /// single letter machine part: nothing happens.
    NotRunning,
    /// Runes, machine parts and trigger stars were reset; `out_of_balls`
    /// reports that no grey ball is left and the game is over.
    Reset { out_of_balls: bool },
}

/// A rune sitting in some slot: the reset detaches it and sends it home.
pub open spec fn is_resettable_rune(e: Entity) -> bool {
    &&& e.alive
    &&& e.rune is Some
    &&& e.parent is Some
    &&& e.star_trigger is None
    &&& !e.card
    &&& !e.letter
}

/// A rune reset: untinted, detached, back at its resting place and its
/// own depth, forgetting whom it affected.
pub open spec fn reset_rune_spec(e: Entity) -> Entity {
    Entity {
        rune: Some(RuneData { affected_entity: None, ..e.rune.unwrap() }),
        tint: Tint::Normal,
        parent: None,
        transform: Transform2 {
            pos: e.rune.unwrap().default_position,
            z: e.render_layer,
            scale: SCALE_ONE,
        },
        ..e
    }
}

/// The card machine part sent back to its start.
pub open spec fn reset_card_spec(e: Entity) -> Entity {
    Entity {
        transform: Transform2 {
            pos: Vec2I { x: CARD_MACHINE_START_X, y: CARD_MACHINE_START_Y },
            z: e.render_layer,
            ..e.transform
        },
        ..e
    }
}

/// The letter machine part sent back to its start.
pub open spec fn reset_letter_spec(e: Entity) -> Entity {
    Entity {
        transform: Transform2 {
            pos: Vec2I { x: LETTER_MACHINE_START_X, y: LETTER_MACHINE_START_Y },
            z: e.render_layer,
            ..e.transform
        },
        ..e
    }
}

/// The reset applied to one entity: slotted runes go home, the single
/// card and letter machine parts return to their starts, and trigger
/// stars lose their tint.
pub open spec fn failed_transition(e: Entity, card_single: bool, letter_single: bool) -> Entity {
    let e1 = if is_resettable_rune(e) {
        reset_rune_spec(e)
    } else {
        e
    };
    let e2 = if card_single {
        reset_card_spec(e1)
    } else if letter_single {
        reset_letter_spec(e1)
    } else {
        e1
    };
    if e2.alive && e2.star_trigger is Some {
        Entity { tint: Tint::Normal, ..e2 }
    } else {
        e2
    }
}

/// Handles a machine-failed signal while the machine runs: stops waiting,
/// resets every slotted rune, the two machine parts and the trigger
/// stars, and ends the game when no grey ball is left.
#[verifier::rlimit(80)]
pub fn handle_event_machine_failed(w: &mut GameWorld) -> (r: ResetOutcome)
    requires
        wf(*old(w)),
    ensures
        wf(*final(w)),
        final(w).entities@.len() == old(w).entities@.len(),
        (r == ResetOutcome::NotRunning) <==> !(old(w).player.waiting_for_machine && has_sole_match(
            old(w).entities@,
            Query::MachineCard,
        ) && has_sole_match(old(w).entities@, Query::MachineLetter)),
        r == ResetOutcome::NotRunning ==> final(w).player == old(w).player && final(w).entities@
            == old(w).entities@,
        r matches ResetOutcome::Reset { out_of_balls } ==> {
            &&& out_of_balls == (first_match(old(w).entities@, Query::LiveGreyBall) is None)
            &&& final(w).player == (PlayerState {
                waiting_for_machine: false,
                game_over: old(w).player.game_over || out_of_balls,
                ..old(w).player
            })
            &&& forall|i: int|
                0 <= i < old(w).entities@.len() ==> final(w).entities@[i] == failed_transition(
                    old(w).entities@[i],
                    sole_match(old(w).entities@, Query::MachineCard, i),
                    sole_match(old(w).entities@, Query::MachineLetter, i),
                )
        },
{
    if !w.player.waiting_for_machine {
        return ResetOutcome::NotRunning;
    }
    let card = find_sole(&w.entities, Query::MachineCard);
    let letter = find_sole(&w.entities, Query::MachineLetter);
    let (c, l) = match (card, letter) {
        (Some(c), Some(l)) => (c, l),
        _ => {
            return ResetOutcome::NotRunning;
        },
    };
    w.player.waiting_for_machine = false;
    let out_of_balls = find_first(&w.entities, Query::LiveGreyBall).is_none();
    if out_of_balls {
        w.player.game_over = true;
    }
    let ghost s1 = old(w).entities@;
    let n = w.entities.len();
    let mut i: usize = 0;
    while i < n
        invariant
            wf(*old(w)),
            s1 == old(w).entities@,
            n == s1.len(),
            w.entities@.len() == n,
            0 <= i <= n,
            c < n,
            l < n,
            sole_match(s1, Query::MachineCard, c as int),
            sole_match(s1, Query::MachineLetter, l as int),
            w.player == (PlayerState {
                waiting_for_machine: false,
                game_over: old(w).player.game_over || out_of_balls,
                ..old(w).player
            }),
            forall|j: int|
                0 <= j < i ==> w.entities@[j] == failed_transition(
                    s1[j],
                    sole_match(s1, Query::MachineCard, j),
                    sole_match(s1, Query::MachineLetter, j),
                ),
            forall|j: int| i <= j < n ==> w.entities@[j] == s1[j],
        decreases n - i,
    {
        proof {
            assert(entity_ok(s1, i as int));
        }
        let e = w.entities[i];
        let mut e2 = e;
        if e.alive && e.rune.is_some() && e.parent.is_some() && e.star_trigger.is_none() && !e.card
            && !e.letter {
            let rd = e.rune.unwrap();
            e2.rune = Some(RuneData { affected_entity: None, ..rd });
            e2.tint = Tint::Normal;
            e2.parent = None;
            e2.transform.pos = rd.default_position;
            e2.transform.z = e.render_layer;
            e2.transform.scale = SCALE_ONE;
        }
        if i == c {
            e2.transform.pos = Vec2I { x: CARD_MACHINE_START_X, y: CARD_MACHINE_START_Y };
            e2.transform.z = e2.render_layer;
        } else if i == l {
            e2.transform.pos = Vec2I { x: LETTER_MACHINE_START_X, y: LETTER_MACHINE_START_Y };
            e2.transform.z = e2.render_layer;
        }
        if e2.alive && e2.star_trigger.is_some() {
            e2.tint = Tint::Normal;
        }
        w.entities.set(i, e2);
        proof {
            if i != c {
                assert(!sole_match(s1, Query::MachineCard, i as int)) by {
                    if sole_match(s1, Query::MachineCard, i as int) {
                        assert(!query_matches(Query::MachineCard, s1[i as int]));
                    }
                }
            }
            if i != l {
                assert(!sole_match(s1, Query::MachineLetter, i as int)) by {
                    if sole_match(s1, Query::MachineLetter, i as int) {
                        assert(!query_matches(Query::MachineLetter, s1[i as int]));
                    }
                }
            }
            assert(w.entities@[i as int] == failed_transition(
                s1[i as int],
                sole_match(s1, Query::MachineCard, i as int),
                sole_match(s1, Query::MachineLetter, i as int),
            ));
        }
        i = i + 1;
    }
    proof {
        let s2 = w.entities@;
        assert forall|k: int| 0 <= k < s2.len() implies entity_ok(s2, k) by {
            assert(entity_ok(s1, k));
            let cb = sole_match(s1, Query::MachineCard, k);
            let lb = sole_match(s1, Query::MachineLetter, k);
            assert(s2[k] == failed_transition(s1[k], cb, lb));
            if let Some(p) = s2[k].parent {
                assert(s1[k].parent == Some(p));
                assert(entity_ok(s1, p as int));
                assert(s2[p as int] == failed_transition(
                    s1[p as int],
                    sole_match(s1, Query::MachineCard, p as int),
                    sole_match(s1, Query::MachineLetter, p as int),
                ));
            }
        }
    }
    ResetOutcome::Reset { out_of_balls }
}

/// What came of a trigger star's activation.
#[derive(Clone, Copy, PartialEq, Eq, Debug)]
pub enum TriggerOutcome {
    /// The machine is not running, or the scene has no single donut
    /// circle: nothing happens.
    NotRunning,
    /// The donut circle was activated: the donut is summoned over it and
    /// the game is won.
    DonutSummoned { circle: usize },
    /// A slot holding a rune was activated: the rune's effect moved onto
    /// the slot's machine part.
    EffectForwarded { slot: usize, rune: usize, part: usize },
    /// The activation had no receiver: the machine has failed.
    Failed,
}

/// A layer of the summoned donut, drawn over the circle at depth `z` and
/// size `size`.
pub open spec fn donut_spawn_spec(c: Entity, z: i64, size: i64) -> Entity {
    Entity {
        donut_circle: true,
        transform: Transform2 { pos: c.transform.pos, z, scale: SCALE_ONE },
        render_layer: z,
        custom_size: Some(Vec2I { x: size, y: size }),
        ..blank_spec()
    }
}

/// Handles the activation of the entity a trigger star points at, while
/// the machine runs. Activating the donut circle summons the donut and
/// wins the game; activating a slot that holds a rune forwards the rune's
/// effect to the slot's machine part; anything else fails the machine.
#[verifier::rlimit(80)]
pub fn handle_event_trigger_star_activated(w: &mut GameWorld, target: usize) -> (r:
    TriggerOutcome)
    requires
        wf(*old(w)),
        target < old(w).entities@.len(),
    ensures
        wf(*final(w)),
        (r == TriggerOutcome::NotRunning) <==> !(old(w).player.waiting_for_machine
            && has_sole_match(old(w).entities@, Query::LiveDonutCircle)),
        r == TriggerOutcome::NotRunning || r == TriggerOutcome::Failed ==> final(w).player == old(
            w,
        ).player && final(w).entities@ == old(w).entities@,
        r matches TriggerOutcome::DonutSummoned { circle } ==> {
            &&& circle == target
            &&& sole_match(old(w).entities@, Query::LiveDonutCircle, circle as int)
            &&& final(w).player == (PlayerState {
                waiting_for_machine: false,
                game_over: true,
                ..old(w).player
            })
            &&& final(w).entities@ == old(w).entities@ + seq![
                donut_spawn_spec(
                    old(w).entities@[circle as int],
                    DONUT_BASE_RENDER_LAYER,
                    80,
                ),
                donut_spawn_spec(
                    old(w).entities@[circle as int],
                    DONUT_FROSTING_RENDER_LAYER,
                    70,
                ),
                donut_spawn_spec(
                    old(w).entities@[circle as int],
                    DONUT_SPRINKLES_RENDER_LAYER,
                    70,
                ),
            ]
        },
        old(w).player.waiting_for_machine && sole_match(
            old(w).entities@,
            Query::LiveDonutCircle,
            target as int,
        ) ==> r == (TriggerOutcome::DonutSummoned { circle: target }),
        r matches TriggerOutcome::EffectForwarded { slot, rune, part } ==> {
            &&& slot == target
            &&& query_matches(Query::ActivatableSlot, old(w).entities@[target as int])
            &&& old(w).entities@[target as int].parent == Some(part)
            &&& first_match(old(w).entities@, Query::ChildRune(target)) == Some(rune as int)
            &&& final(w).player == old(w).player
            &&& final(w).entities@ == old(w).entities@.update(
                part as int,
                Entity {
                    rune_effect: Some(
                        old(w).entities@[rune as int].rune.unwrap().rune_effect,
                    ),
                    ..old(w).entities@[part as int]
                },
            )
        },
        old(w).player.waiting_for_machine && has_sole_match(
            old(w).entities@,
            Query::LiveDonutCircle,
        ) && !sole_match(old(w).entities@, Query::LiveDonutCircle, target as int) ==> {
            let handled = query_matches(Query::ActivatableSlot, old(w).entities@[target as int])
                && first_match(old(w).entities@, Query::ChildRune(target)) is Some;
            &&& (handled ==> r matches TriggerOutcome::EffectForwarded { slot, rune, part })
            &&& (!handled ==> r == TriggerOutcome::Failed)
        },
{
    if !w.player.waiting_for_machine {
        return TriggerOutcome::NotRunning;
    }
    let circle = match find_sole(&w.entities, Query::LiveDonutCircle) {
        Some(c) => c,
        None => {
            return TriggerOutcome::NotRunning;
        },
    };
    proof {
        assert(has_sole_match(old(w).entities@, Query::LiveDonutCircle));
    }
    let ghost s1 = old(w).entities@;
    if target == circle {
        w.player.waiting_for_machine = false;
        w.player.game_over = true;
        let c = w.entities[circle];
        proof {
            assert(entity_ok(s1, circle as int));
        }
        let base = blank_entity();
        w.entities.push(
            Entity {
                donut_circle: true,
                transform: Transform2 {
                    pos: c.transform.pos,
                    z: DONUT_BASE_RENDER_LAYER,
                    scale: SCALE_ONE,
                },
                render_layer: DONUT_BASE_RENDER_LAYER,
                custom_size: Some(Vec2I { x: 80, y: 80 }),
                ..base
            },
        );
        w.entities.push(
            Entity {
                donut_circle: true,
                transform: Transform2 {
                    pos: c.transform.pos,
                    z: DONUT_FROSTING_RENDER_LAYER,
                    scale: SCALE_ONE,
                },
                render_layer: DONUT_FROSTING_RENDER_LAYER,
                custom_size: Some(Vec2I { x: 70, y: 70 }),
                ..base
            },
        );
        w.entities.push(
            Entity {
                donut_circle: true,
                transform: Transform2 {
                    pos: c.transform.pos,
                    z: DONUT_SPRINKLES_RENDER_LAYER,
                    scale: SCALE_ONE,
                },
                render_layer: DONUT_SPRINKLES_RENDER_LAYER,
                custom_size: Some(Vec2I { x: 70, y: 70 }),
                ..base
            },
        );
        proof {
            let s2 = w.entities@;
            assert forall|k: int| 0 <= k < s2.len() implies entity_ok(s2, k) by {
                if k < s1.len() {
                    assert(entity_ok(s1, k));
                    if let Some(p) = s1[k].parent {
                        assert(s2[p as int] == s1[p as int]);
                    }
                }
            }
        }
        return TriggerOutcome::DonutSummoned { circle };
    }
    proof {
        assert(!sole_match(s1, Query::LiveDonutCircle, target as int)) by {
            if sole_match(s1, Query::LiveDonutCircle, target as int) {
                assert(!query_matches(Query::LiveDonutCircle, s1[circle as int]));
            }
        }
    }
    let e_t = w.entities[target];
    if entity_matches(Query::ActivatableSlot, &e_t) {
        if let Some(rune_idx) = find_first(&w.entities, Query::ChildRune(target)) {
            proof {
                lemma_first_match_from(s1, Query::ChildRune(target), 0);
                assert(entity_ok(s1, target as int));
                assert(entity_ok(s1, rune_idx as int));
            }
            let part = e_t.parent.unwrap();
            let rune_e = w.entities[rune_idx];
            let mut pe = w.entities[part];
            pe.rune_effect = Some(rune_e.rune.unwrap().rune_effect);
            w.entities.set(part, pe);
            proof {
                let s2 = w.entities@;
                assert forall|k: int| 0 <= k < s1.len() implies same_link_fields(s1[k], s2[k])
                    && entity_parent_link(s1, k) by {
                    assert(entity_ok(s1, k));
                }
                lemma_parent_links_preserved(s1, s2);
                assert forall|k: int| 0 <= k < s2.len() implies entity_ok(s2, k) by {
                    assert(entity_ok(s1, k));
                }
            }
            return TriggerOutcome::EffectForwarded { slot: target, rune: rune_idx, part };
        }
    }
    TriggerOutcome::Failed
}

} // verus!
