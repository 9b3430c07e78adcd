//! Player input: forwarding mouse edges to pick and release attempts,
//! picking the object under the cursor, dragging it, and dropping it.

use vstd::prelude::*;

use crate::geom::Vec2I;
use crate::geom::div_trunc;
use crate::geom::in_size;
use crate::geom::in_world;
use crate::geom::scale_spec;
use crate::geom::scale_coord;
use crate::geom::SCALE_ONE;
use crate::query::Query;
use crate::query::find_sole;
use crate::query::has_sole_match;
use crate::query::sole_match;
use crate::world::Entity;
use crate::world::GameWorld;
use crate::world::PlayerState;
use crate::world::Transform2;
use crate::world::entity_ok;
use crate::world::entity_parent_link;
use crate::world::global_transform;
use crate::world::lemma_parent_links_preserved;
use crate::world::same_link_fields;
use crate::world::spec_global_scale;
use crate::world::spec_global_x;
use crate::world::spec_global_y;
use crate::world::wf;

verus! {

/// Forwards mouse button edges while the machine is not running: a press
/// makes the player attempt a pick, a release makes them attempt a
/// release. Cursor positions travel beside these flags, outside the
/// world.
pub fn controls(w: &mut GameWorld, pressed: bool, released: bool)
    requires
        wf(*old(w)),
    ensures
        wf(*final(w)),
        final(w).entities@ == old(w).entities@,
        old(w).player.waiting_for_machine ==> final(w).player == old(w).player,
        !old(w).player.waiting_for_machine ==> final(w).player == (PlayerState {
            attempts_pick: old(w).player.attempts_pick || pressed,
            attempts_release: old(w).player.attempts_release || released,
            ..old(w).player
        }),
{
    if w.player.waiting_for_machine {
        return ;
    }
    if pressed {
        w.player.attempts_pick = true;
    }
    if released {
        w.player.attempts_release = true;
    }
}

/// The size a sprite is drawn at: the forced size if one is set, else the
/// image's size, else one unit square; scaled by `scale` (thousandths).
pub open spec fn sprite_size_spec(custom: Option<Vec2I>, image: Option<Vec2I>, scale: int) -> Vec2I {
    let base = if custom is Some {
        custom.unwrap()
    } else if image is Some {
        image.unwrap()
    } else {
        Vec2I { x: 1, y: 1 }
    };
    Vec2I { x: scale_spec(base.x as int, scale) as i64, y: scale_spec(base.y as int, scale) as i64 }
}

/// Computes the size a sprite is drawn at, as `sprite_size_spec` says.
pub fn calculate_sprite_size(custom: Option<Vec2I>, image: Option<Vec2I>, scale: i64) -> (r: Vec2I)
    requires
        custom matches Some(v) ==> in_size(v),
        image matches Some(v) ==> in_size(v),
        0 <= scale <= 1_000_000,
    ensures
        r == sprite_size_spec(custom, image, scale as int),
        0 <= r.x <= 1_000_000_000,
        0 <= r.y <= 1_000_000_000,
{
    let base = match custom {
        Some(v) => v,
        None => match image {
            Some(v) => v,
            None => Vec2I { x: 1, y: 1 },
        },
    };
    let rx = scale_coord(base.x, scale);
    let ry = scale_coord(base.y, scale);
    proof {
        assert(0 <= base.x * scale <= 1_000_000_000_000 && 0 <= base.y * scale
            <= 1_000_000_000_000) by (nonlinear_arith)
            requires
                0 <= base.x <= 1_000_000,
                0 <= base.y <= 1_000_000,
                0 <= scale <= 1_000_000,
        ;
        crate::geom::lemma_div_trunc_bound(base.x as int * scale as int, 1000, 1_000_000_000_000);
        crate::geom::lemma_div_trunc_bound(base.y as int * scale as int, 1000, 1_000_000_000_000);
    }
    Vec2I { x: rx, y: ry }
}

/// The click lands strictly inside the sprite: within half its size of
/// its center on both axes.
pub open spec fn hit_spec(click: Vec2I, center_x: int, center_y: int, size: Vec2I) -> bool {
    &&& center_x - size.x / 2 < click.x < center_x + size.x / 2
    &&& center_y - size.y / 2 < click.y < center_y + size.y / 2
}

/// The player can pick this entity up.
pub open spec fn is_pickable(e: Entity) -> bool {
    e.alive && e.pickable && !e.picked
}

/// The click lands on pickable entity `i`, drawn at its world transform.
pub open spec fn pick_hits(s: Seq<Entity>, i: int, click: Vec2I) -> bool {
    &&& is_pickable(s[i])
    &&& hit_spec(
        click,
        spec_global_x(s, i),
        spec_global_y(s, i),
        sprite_size_spec(s[i].custom_size, s[i].image_size, spec_global_scale(s, i)),
    )
}

/// The first pickable entity under the click, at or after `i`.
pub open spec fn first_hit_from(s: Seq<Entity>, click: Vec2I, i: int) -> Option<int>
    recommends
        0 <= i <= s.len(),
    decreases s.len() - i,
    when 0 <= i <= s.len()
{
    if i >= s.len() {
        None
    } else if pick_hits(s, i, click) {
        Some(i)
    } else {
        first_hit_from(s, click, i + 1)
    }
}

/// The first pickable entity under the click, in spawn order.
pub open spec fn first_hit(s: Seq<Entity>, click: Vec2I) -> Option<int> {
    first_hit_from(s, click, 0)
}

/// The picked entity: marked as dragged; if it sat in a slot it is
/// detached, unscaled, and moved under the cursor at its own depth.
pub open spec fn picked_spec(e: Entity, click: Vec2I) -> Entity {
    if e.parent is Some {
        Entity {
            picked: true,
            parent: None,
            transform: Transform2 { pos: click, z: e.render_layer, scale: SCALE_ONE },
            ..e
        }
    } else {
        Entity { picked: true, ..e }
    }
}

/// What came of a pick attempt.
#[derive(Clone, Copy, PartialEq, Eq, Debug)]
pub enum PickOutcome {
    /// The player was not attempting a pick, or the game is over.
    NotAttempting,
    /// Nothing pickable lies under the click.
    NoHit,
    /// This entity was picked up.
    Picked { entity: usize },
}

/// Handles a pick attempt at `click` (world coordinates): the first
/// pickable entity under the click is marked picked, pulled out of any
/// slot, and the attempt is consumed.
#[verifier::rlimit(80)]
pub fn handle_event_pick(w: &mut GameWorld, click: Vec2I) -> (r: PickOutcome)
    requires
        wf(*old(w)),
        in_world(click),
    ensures
        wf(*final(w)),
        final(w).entities@.len() == old(w).entities@.len(),
        (r == PickOutcome::NotAttempting) <==> !(old(w).player.attempts_pick && !old(w).player.game_over),
        r == PickOutcome::NotAttempting ==> final(w).player == old(w).player && final(w).entities@
            == old(w).entities@,
        r == PickOutcome::NoHit ==> {
            &&& first_hit(old(w).entities@, click) is None
            &&& final(w).player == (PlayerState { attempts_pick: false, ..old(w).player })
            &&& final(w).entities@ == old(w).entities@
        },
        r matches PickOutcome::Picked { entity } ==> {
            &&& first_hit(old(w).entities@, click) == Some(entity as int)
            &&& final(w).player == (PlayerState {
                attempts_pick: false,
                can_pick: false,
                ..old(w).player
            })
            &&& final(w).entities@ == old(w).entities@.update(
                entity as int,
                picked_spec(old(w).entities@[entity as int], click),
            )
        },
        !(r == PickOutcome::NotAttempting) ==> (r == PickOutcome::NoHit <==> first_hit(
            old(w).entities@,
            click,
        ) is None),
{
    if !(w.player.attempts_pick && !w.player.game_over) {
        return PickOutcome::NotAttempting;
    }
    w.player.attempts_pick = false;
    let ghost s1 = old(w).entities@;
    let n = w.entities.len();
    let mut i: usize = 0;
    while i < n
        invariant
            wf(*old(w)),
            s1 == old(w).entities@,
            n == s1.len(),
            w.entities@ == s1,
            in_world(click),
            0 <= i <= n,
            old(w).player.attempts_pick && !old(w).player.game_over,
            w.player == (PlayerState { attempts_pick: false, ..old(w).player }),
            first_hit(s1, click) == first_hit_from(s1, click, i as int),
        decreases n - i,
    {
        let e = w.entities[i];
        let mut is_hit = false;
        if e.alive && e.pickable && !e.picked {
            proof {
                assert(entity_ok(s1, i as int));
            }
            let xf = global_transform(w, i);
            let size = calculate_sprite_size(e.custom_size, e.image_size, xf.scale);
            let hw = div_trunc(size.x, 2);
            let hh = div_trunc(size.y, 2);
            is_hit = click.x > xf.pos.x - hw && click.x < xf.pos.x + hw && click.y > xf.pos.y - hh
                && click.y < xf.pos.y + hh;
        }
        if is_hit {
            w.player.can_pick = false;
            let mut e2 = e;
            e2.picked = true;
            if e.parent.is_some() {
                e2.parent = None;
                e2.transform.pos = click;
                e2.transform.z = e.render_layer;
                e2.transform.scale = SCALE_ONE;
            }
            w.entities.set(i, e2);
            proof {
                let s2 = w.entities@;
                assert(s2[i as int] == picked_spec(s1[i as int], click));
                assert forall|k: int| 0 <= k < s2.len() implies entity_ok(s2, k) by {
                    assert(entity_ok(s1, k));
                    if let Some(p) = s2[k].parent {
                        assert(s2[k].parent == s1[k].parent);
                        assert(entity_ok(s1, p as int));
                        if p == i {
                            assert(s1[k].rune_slot ==> s1[i as int].machine_part);
                            assert(s1[k].rune is Some ==> s1[i as int].rune_slot);
                        } else {
                            assert(s2[p as int] == s1[p as int]);
                        }
                    }
                }
            }
            return PickOutcome::Picked { entity: i };
        }
        i = i + 1;
    }
    PickOutcome::NoHit
}

/// What came of a release attempt.
#[derive(Clone, Copy, PartialEq, Eq, Debug)]
pub enum ReleaseOutcome {
    /// The player was not attempting a release.
    NotAttempting,
    /// Nothing was being dragged: only the attempt was consumed.
    NothingPicked,
    /// The dragged entity was dropped and is now placed.
    Released { entity: usize },
}

/// Handles a release attempt: the attempt is consumed, the player may
/// pick again, and the dragged entity, if there is exactly one, turns
/// from picked to placed.
pub fn handle_event_release(w: &mut GameWorld) -> (r: ReleaseOutcome)
    requires
        wf(*old(w)),
    ensures
        wf(*final(w)),
        (r == ReleaseOutcome::NotAttempting) <==> !old(w).player.attempts_release,
        r == ReleaseOutcome::NotAttempting ==> final(w).player == old(w).player && final(w).entities@ == old(w).entities@,
        r != ReleaseOutcome::NotAttempting ==> final(w).player == (PlayerState {
            attempts_release: false,
            can_pick: true,
            ..old(w).player
        }),
        r == ReleaseOutcome::NothingPicked ==> {
            &&& !has_sole_match(old(w).entities@, Query::Picked)
            &&& final(w).entities@ == old(w).entities@
        },
        r matches ReleaseOutcome::Released { entity } ==> {
            &&& sole_match(old(w).entities@, Query::Picked, entity as int)
            &&& final(w).entities@ == old(w).entities@.update(
                entity as int,
                Entity {
                    picked: false,
                    placed: true,
                    ..old(w).entities@[entity as int]
                },
            )
        },
{
    if !w.player.attempts_release {
        return ReleaseOutcome::NotAttempting;
    }
    w.player.attempts_release = false;
    w.player.can_pick = true;
    let picked = find_sole(&w.entities, Query::Picked);
    match picked {
        None => ReleaseOutcome::NothingPicked,
        Some(p) => {
            let ghost s1 = old(w).entities@;
            let mut e2 = w.entities[p];
            e2.picked = false;
            e2.placed = true;
            w.entities.set(p, e2);
            proof {
                let s2 = w.entities@;
                assert forall|k: int| 0 <= k < s1.len() implies same_link_fields(s1[k], s2[k])
                    && entity_parent_link(s1, k) by {
                    assert(entity_ok(s1, k));
                }
                lemma_parent_links_preserved(s1, s2);
                assert forall|k: int| 0 <= k < s2.len() implies entity_ok(s2, k) by {
                    assert(entity_ok(s1, k));
                }
            }
            ReleaseOutcome::Released { entity: p }
        },
    }
}

/// Drags the picked entity: while exactly one entity is picked, each
/// cursor movement puts it at the cursor's world position, keeping its
/// depth.
pub fn handle_event_mouse_move(w: &mut GameWorld, cursor: Vec2I) -> (r: Option<usize>)
    requires
        wf(*old(w)),
        in_world(cursor),
    ensures
        wf(*final(w)),
        final(w).player == old(w).player,
        r is None ==> !has_sole_match(old(w).entities@, Query::Picked) && final(w).entities@ == old(w).entities@,
        r matches Some(m) ==> {
            &&& sole_match(old(w).entities@, Query::Picked, m as int)
            &&& final(w).entities@ == old(w).entities@.update(
                m as int,
                Entity {
                    transform: Transform2 {
                        pos: cursor,
                        ..old(w).entities@[m as int].transform
                    },
                    ..old(w).entities@[m as int]
                },
            )
        },
{
    let picked = find_sole(&w.entities, Query::Picked);
    match picked {
        None => None,
        Some(m) => {
            crate::world::set_translation(w, m, cursor);
            Some(m)
        },
    }
}

} // verus!
