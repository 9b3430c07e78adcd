//! Collision handling: the rules that fire when the physics engine
//! reports touching pairs — balls loaded into the firing mechanism, runes
//! snapping into slots, blue balls consumed by runes, and effects or
//! stray balls reaching trigger stars.
//!
//! The engine hands in the contact list as plain index pairs; each rule
//! scans it in order and acts on the first pair that concerns it, as the
//! game does.

use vstd::prelude::*;

use crate::geom::Vec2I;
use crate::geom::in_size;
use crate::geom::scale_coord;
use crate::geom::scale_spec;
use crate::geom::SCALE_ONE;
use crate::geom::div_trunc;
use crate::query::Query;
use crate::query::entity_matches;
use crate::query::query_matches;
use crate::query::has_sole_match;
use crate::query::find_sole;
use crate::query::first_match;
use crate::query::sole_match;
use crate::input::calculate_sprite_size;
use crate::input::sprite_size_spec;
use crate::world::Entity;
use crate::world::GameWorld;
use crate::world::PlayerState;
use crate::world::Transform2;
use crate::world::RuneData;
use crate::world::ColliderType;
use crate::world::compose_scale;
use crate::world::entity_ok;
use crate::world::entity_parent_link;
use crate::world::lemma_parent_links_preserved;
use crate::world::same_link_fields;
use crate::world::global_transform;
use crate::world::spec_global_scale;
use crate::world::wf;

verus! {

/// A pair of entities the physics engine reports as touching.
#[derive(Clone, Copy, PartialEq, Eq, Structural, Debug)]
pub struct ContactPair {
    pub collider1: usize,
    pub collider2: usize,
}

/// Every index in the contact list points into the world.
pub open spec fn pairs_ok(ps: Seq<ContactPair>, n: int) -> bool {
    forall|k: int|
        0 <= k < ps.len() ==> ps[k].collider1 < n && ps[k].collider2 < n
}

/// The pair touches entity `b` on one side and an entity matching `q` on
/// the other.
pub open spec fn pair_links(s: Seq<Entity>, b: usize, q: Query, p: ContactPair) -> bool {
    ||| (p.collider1 == b && query_matches(q, s[p.collider2 as int]))
    ||| (p.collider2 == b && query_matches(q, s[p.collider1 as int]))
}

/// The side of the pair that is not `b`.
pub open spec fn pair_other(b: usize, p: ContactPair) -> usize {
    if p.collider1 == b {
        p.collider2
    } else {
        p.collider1
    }
}

/// The first pair at or after `k` that links `b` to an entity matching
/// `q`.
pub open spec fn first_link_from(
    s: Seq<Entity>,
    b: usize,
    q: Query,
    ps: Seq<ContactPair>,
    k: int,
) -> Option<int>
    recommends
        0 <= k <= ps.len(),
    decreases ps.len() - k,
    when 0 <= k <= ps.len()
{
    if k >= ps.len() {
        None
    } else if pair_links(s, b, q, ps[k]) {
        Some(k)
    } else {
        first_link_from(s, b, q, ps, k + 1)
    }
}

/// The entity `b` first touches through the contact list among those
/// matching `q`, if any.
pub open spec fn linked_other(s: Seq<Entity>, b: usize, q: Query, ps: Seq<ContactPair>) -> Option<
    usize,
> {
    match first_link_from(s, b, q, ps, 0) {
        Some(k) => Some(pair_other(b, ps[k])),
        None => None,
    }
}

/// Finds the first pair linking `b` to an entity matching `q`.
fn find_link(v: &Vec<Entity>, pairs: &Vec<ContactPair>, b: usize, q: Query) -> (r: Option<usize>)
    requires
        pairs_ok(pairs@, v@.len() as int),
    ensures
        r matches Some(k) ==> k < pairs@.len() && first_link_from(v@, b, q, pairs@, 0) == Some(
            k as int,
        ),
        r is None ==> first_link_from(v@, b, q, pairs@, 0) is None,
{
    let n = pairs.len();
    let mut k: usize = 0;
    while k < n
        invariant
            0 <= k <= n,
            n == pairs@.len(),
            pairs_ok(pairs@, v@.len() as int),
            first_link_from(v@, b, q, pairs@, 0) == first_link_from(v@, b, q, pairs@, k as int),
        decreases n - k,
    {
        let p = pairs[k];
        proof {
            assert(p.collider1 < v@.len() && p.collider2 < v@.len());
        }
        let hit = (p.collider1 == b && entity_matches(q, &v[p.collider2])) || (p.collider2 == b
            && entity_matches(q, &v[p.collider1]));
        if hit {
            return Some(k);
        }
        k = k + 1;
    }
    None
}

/// What the asset store reports of an entity's sprite image.
#[derive(Clone, Copy, PartialEq, Eq, Debug)]
pub struct AssetInfo {
    /// The image has finished loading.
    pub loaded: bool,
    /// The image's size, where the store can tell it.
    pub image_size: Option<Vec2I>,
}

/// A collider to attach to an entity, sized from its sprite.
#[derive(Clone, Copy, PartialEq, Eq, Debug)]
pub enum ColliderShape {
    Circle { radius: i64 },
    Rectangle { width: i64, height: i64 },
}

/// The entity waits for a collider and its image has loaded: a collider
/// is attached now.
pub open spec fn collider_resolves(e: Entity, a: AssetInfo) -> bool {
    e.alive && e.add_collider is Some && a.loaded
}

/// The collider an entity receives: its sprite size under its own scale,
/// shrunk by the collider factor; a circle takes half the width as its
/// radius.
pub open spec fn collider_shape_spec(e: Entity, a: AssetInfo) -> ColliderShape {
    let ac = e.add_collider.unwrap();
    let size = sprite_size_spec(e.custom_size, a.image_size, e.transform.scale as int);
    match ac.collider_type {
        ColliderType::Circle => ColliderShape::Circle {
            radius: scale_spec(size.x as int / 2, ac.collider_scale as int) as i64,
        },
        ColliderType::Rectangle => ColliderShape::Rectangle {
            width: scale_spec(size.x as int, ac.collider_scale as int) as i64,
            height: scale_spec(size.y as int, ac.collider_scale as int) as i64,
        },
    }
}

/// The colliders resolved at or after entity `i`, in order: one for each
/// entity whose collider resolves.
pub open spec fn collider_list(s: Seq<Entity>, a: Seq<AssetInfo>, i: int) -> Seq<
    (usize, ColliderShape),
>
    recommends
        a.len() == s.len(),
        0 <= i <= s.len(),
    decreases s.len() - i,
    when 0 <= i <= s.len()
{
    if i >= s.len() {
        Seq::empty()
    } else {
        let rest = collider_list(s, a, i + 1);
        if collider_resolves(s[i], a[i]) {
            seq![(i as usize, collider_shape_spec(s[i], a[i]))] + rest
        } else {
            rest
        }
    }
}

/// Attaches colliders: every entity still waiting for one whose image
/// has loaded stops waiting, and the list of colliders to hand to the
/// physics engine is returned, in spawn order.
pub fn add_colliders(w: &mut GameWorld, assets: &Vec<AssetInfo>) -> (colliders: Vec<
    (usize, ColliderShape),
>)
    requires
        wf(*old(w)),
        assets@.len() == old(w).entities@.len(),
        forall|i: int|
            0 <= i < assets@.len() ==> (#[trigger] assets@[i].image_size matches Some(v)
                ==> in_size(v)),
    ensures
        wf(*final(w)),
        final(w).player == old(w).player,
        final(w).entities@.len() == old(w).entities@.len(),
        forall|i: int|
            0 <= i < old(w).entities@.len() ==> final(w).entities@[i] == (
            if collider_resolves(old(w).entities@[i], assets@[i]) {
                Entity { add_collider: None, ..old(w).entities@[i] }
            } else {
                old(w).entities@[i]
            }),
        colliders@ == collider_list(old(w).entities@, assets@, 0),
{
    let ghost s1 = old(w).entities@;
    let mut c: Vec<(usize, ColliderShape)> = Vec::new();
    let n = w.entities.len();
    let mut i: usize = 0;
    while i < n
        invariant
            wf(*old(w)),
            s1 == old(w).entities@,
            n == s1.len(),
            w.entities@.len() == n,
            w.player == old(w).player,
            assets@.len() == n,
            forall|j: int|
                0 <= j < assets@.len() ==> (#[trigger] assets@[j].image_size matches Some(v)
                    ==> in_size(v)),
            0 <= i <= n,
            forall|j: int|
                0 <= j < i ==> w.entities@[j] == (if collider_resolves(s1[j], assets@[j]) {
                    Entity { add_collider: None, ..s1[j] }
                } else {
                    s1[j]
                }),
            forall|j: int| i <= j < n ==> w.entities@[j] == s1[j],
            c@ + collider_list(s1, assets@, i as int) == collider_list(s1, assets@, 0),
        decreases n - i,
    {
        proof {
            assert(entity_ok(s1, i as int));
        }
        let e = w.entities[i];
        let a = assets[i];
        if e.alive && e.add_collider.is_some() && a.loaded {
            let ac = e.add_collider.unwrap();
            let size = calculate_sprite_size(e.custom_size, a.image_size, e.transform.scale);
            let shape = match ac.collider_type {
                ColliderType::Circle => {
                    let hx = div_trunc(size.x, 2);
                    ColliderShape::Circle { radius: scale_coord(hx, ac.collider_scale) }
                },
                ColliderType::Rectangle => ColliderShape::Rectangle {
                    width: scale_coord(size.x, ac.collider_scale),
                    height: scale_coord(size.y, ac.collider_scale),
                },
            };
            let ghost c_old = c@;
            c.push((i, shape));
            let mut e2 = e;
            e2.add_collider = None;
            w.entities.set(i, e2);
            proof {
                let elem = (i as usize, collider_shape_spec(s1[i as int], assets@[i as int]));
                assert(shape == collider_shape_spec(s1[i as int], assets@[i as int]));
                assert(c@ =~= c_old + seq![elem]);
                assert((c_old + seq![elem]) + collider_list(s1, assets@, i as int + 1) =~= c_old
                    + (seq![elem] + collider_list(s1, assets@, i as int + 1)));
            }
        }
        i = i + 1;
    }
    proof {
        let s2 = w.entities@;
        assert forall|k: int| 0 <= k < s1.len() implies same_link_fields(s1[k], s2[k])
            && entity_parent_link(s1, k) by {
            assert(entity_ok(s1, k));
        }
        lemma_parent_links_preserved(s1, s2);
        assert forall|k: int| 0 <= k < s2.len() implies entity_ok(s2, k) by {
            assert(entity_ok(s1, k));
        }
    }
    c
}

/// What came of checking the placed ball against the firing mechanisms.
#[derive(Clone, Copy, PartialEq, Eq, Debug)]
pub enum BallFiringOutcome {
    /// There is no single placed grey ball: nothing happens.
    NotApplicable,
    /// The ball touched no firing mechanism and went back to its resting
    /// place.
    BallReturned { ball: usize },
    /// The ball was loaded: turned blue, moved into the mechanism, fired
    /// in its direction, and taken out of the player's reach.
    BallFired { ball: usize, thingy: usize },
}

/// A placed ball that missed: no longer placed, back at its resting
/// place.
pub open spec fn returned_ball_spec(e: Entity) -> Entity {
    Entity {
        placed: false,
        transform: Transform2 { pos: e.grey_ball.unwrap(), ..e.transform },
        ..e
    }
}

/// A placed ball loaded into the firing mechanism `t`: blue, tinted,
/// unpickable, moved onto the mechanism and fired in its direction.
pub open spec fn fired_ball_spec(e: Entity, t: Entity) -> Entity {
    Entity {
        placed: false,
        blue_ball: true,
        tint: crate::world::Tint::MagicalBlue,
        pickable: false,
        velocity: t.ball_firing_thingy.unwrap(),
        transform: Transform2 { pos: t.transform.pos, ..e.transform },
        ..e
    }
}

/// Handles the placed grey ball, if there is exactly one: it leaves the
/// placed state at once; if the contact list links it to a firing
/// mechanism at rest, it is loaded and fired, else it returns to its
/// resting place.
pub fn handle_collision_ball_with_ball_firing_thingy(
    w: &mut GameWorld,
    pairs: &Vec<ContactPair>,
) -> (r: BallFiringOutcome)
    requires
        wf(*old(w)),
        pairs_ok(pairs@, old(w).entities@.len() as int),
    ensures
        wf(*final(w)),
        final(w).entities@.len() == old(w).entities@.len(),
        (r == BallFiringOutcome::NotApplicable) <==> !has_sole_match(
            old(w).entities@,
            Query::PlacedGreyBall,
        ),
        r == BallFiringOutcome::NotApplicable ==> final(w).player == old(w).player && final(w).entities@ == old(w).entities@,
        r matches BallFiringOutcome::BallReturned { ball } ==> {
            &&& sole_match(old(w).entities@, Query::PlacedGreyBall, ball as int)
            &&& linked_other(old(w).entities@, ball, Query::IdleFiringThingy, pairs@) is None
            &&& final(w).player == old(w).player
            &&& final(w).entities@ == old(w).entities@.update(
                ball as int,
                returned_ball_spec(old(w).entities@[ball as int]),
            )
        },
        r matches BallFiringOutcome::BallFired { ball, thingy } ==> {
            &&& sole_match(old(w).entities@, Query::PlacedGreyBall, ball as int)
            &&& linked_other(old(w).entities@, ball, Query::IdleFiringThingy, pairs@) == Some(
                thingy,
            )
            &&& final(w).player == (PlayerState {
                waiting_for_machine: true,
                ..old(w).player
            })
            &&& final(w).entities@ == old(w).entities@.update(
                ball as int,
                fired_ball_spec(
                    old(w).entities@[ball as int],
                    old(w).entities@[thingy as int],
                ),
            )
        },
{
    let b = match find_sole(&w.entities, Query::PlacedGreyBall) {
        Some(b) => b,
        None => {
            return BallFiringOutcome::NotApplicable;
        },
    };
    let ghost s1 = old(w).entities@;
    proof {
        assert(entity_ok(s1, b as int));
    }
    let hit = find_link(&w.entities, pairs, b, Query::IdleFiringThingy);
    let e = w.entities[b];
    match hit {
        None => {
            let mut e2 = e;
            e2.placed = false;
            e2.transform.pos = e.grey_ball.unwrap();
            w.entities.set(b, e2);
            proof {
                let s2 = w.entities@;
                assert forall|k: int| 0 <= k < s1.len() implies same_link_fields(s1[k], s2[k])
                    && entity_parent_link(s1, k) by {
                    assert(entity_ok(s1, k));
                }
                lemma_parent_links_preserved(s1, s2);
                assert forall|k: int| 0 <= k < s2.len() implies entity_ok(s2, k) by {
                    assert(entity_ok(s1, k));
                }
            }
            BallFiringOutcome::BallReturned { ball: b }
        },
        Some(k) => {
            proof {
                crate::collide::lemma_first_link_from(s1, b, Query::IdleFiringThingy, pairs@, 0);
            }
            let p = pairs[k];
            let t = if p.collider1 == b {
                p.collider2
            } else {
                p.collider1
            };
            proof {
                assert(entity_ok(s1, t as int));
            }
            let te = w.entities[t];
            let mut e2 = e;
            e2.placed = false;
            e2.blue_ball = true;
            e2.tint = crate::world::Tint::MagicalBlue;
            e2.pickable = false;
            e2.velocity = te.ball_firing_thingy.unwrap();
            e2.transform.pos = te.transform.pos;
            w.entities.set(b, e2);
            w.player.waiting_for_machine = true;
            proof {
                let s2 = w.entities@;
                assert(s2[b as int] == fired_ball_spec(s1[b as int], s1[t as int]));
                assert forall|kk: int| 0 <= kk < s1.len() implies same_link_fields(s1[kk], s2[kk])
                    && entity_parent_link(s1, kk) by {
                    assert(entity_ok(s1, kk));
                }
                lemma_parent_links_preserved(s1, s2);
                assert forall|kk: int| 0 <= kk < s2.len() implies entity_ok(s2, kk) by {
                    assert(entity_ok(s1, kk));
                }
            }
            BallFiringOutcome::BallFired { ball: b, thingy: t }
        },
    }
}

/// What came of checking the placed rune against the rune slots.
#[derive(Clone, Copy, PartialEq, Eq, Debug)]
pub enum RuneSlotOutcome {
    /// There is no single placed rune: nothing happens.
    NotApplicable,
    /// The rune touched no open slot and went back to its resting place.
    RuneReturned { rune: usize },
    /// The rune snapped into a slot; a rune already sitting there, if
    /// any, was sent back to its resting place.
    RunePlaced { rune: usize, slot: usize, replaced: Option<usize> },
}

/// The scale that cancels a slot's world scale, in thousandths.
pub open spec fn inv_scale_spec(gs: int) -> int
    recommends
        gs >= 1,
{
    1_000_000int / gs
}

/// A placed rune that missed: no longer placed, back at its resting
/// place.
pub open spec fn returned_rune_spec(e: Entity) -> Entity {
    Entity {
        placed: false,
        transform: Transform2 { pos: e.rune.unwrap().default_position, ..e.transform },
        ..e
    }
}

/// The rune `e` snapped into the slot at `slot` of the world `s`:
/// attached to the slot, centered in it just above its surface, scaled to
/// cancel the slot's world scale, and aimed at the slot's machine part.
pub open spec fn slotted_rune_spec(s: Seq<Entity>, e: Entity, slot: usize) -> Entity {
    Entity {
        placed: false,
        parent: Some(slot),
        rune: Some(
            RuneData {
                affected_entity: Some(s[slot as int].parent.unwrap()),
                ..e.rune.unwrap()
            },
        ),
        transform: Transform2 {
            pos: Vec2I { x: 0, y: 0 },
            z: 1,
            scale: inv_scale_spec(spec_global_scale(s, slot as int)) as i64,
        },
        ..e
    }
}

/// A rune pushed out of its slot: detached, back at its resting place
/// and depth, aimed at nothing.
pub open spec fn replaced_rune_spec(e: Entity) -> Entity {
    Entity {
        parent: None,
        rune: Some(RuneData { affected_entity: None, ..e.rune.unwrap() }),
        transform: Transform2 {
            pos: e.rune.unwrap().default_position,
            z: e.render_layer,
            scale: SCALE_ONE,
        },
        ..e
    }
}

/// Snaps the placed rune `ru` into the open slot `sl`; the seated rune
/// `rep`, if one is given, is pushed out and sent home.
fn place_rune(w: &mut GameWorld, ru: usize, sl: usize, rep: Option<usize>)
    requires
        wf(*old(w)),
        ru < old(w).entities@.len(),
        sl < old(w).entities@.len(),
        query_matches(Query::PlacedRune, old(w).entities@[ru as int]),
        query_matches(Query::OpenRuneSlot, old(w).entities@[sl as int]),
        rep matches Some(m) ==> m < old(w).entities@.len() && query_matches(
            Query::SlottedRune,
            old(w).entities@[m as int],
        ),
    ensures
        wf(*final(w)),
        final(w).player == old(w).player,
        final(w).entities@ == (match rep {
            Some(m) => old(w).entities@.update(
                ru as int,
                slotted_rune_spec(old(w).entities@, old(w).entities@[ru as int], sl),
            ).update(m as int, replaced_rune_spec(old(w).entities@[m as int])),
            None => old(w).entities@.update(
                ru as int,
                slotted_rune_spec(old(w).entities@, old(w).entities@[ru as int], sl),
            ),
        }),
{
    let ghost s1 = old(w).entities@;
    proof {
        assert(entity_ok(s1, ru as int));
        assert(entity_ok(s1, sl as int));
    }
    let e = w.entities[ru];
    let sxf = global_transform(w, sl);
    proof {
        let slp = s1[sl as int].parent.unwrap();
        assert(entity_ok(s1, slp as int));
        let sc = s1[sl as int].transform.scale as int;
        assert(spec_global_scale(s1, sl as int) == compose_scale(1000, sc));
        assert(compose_scale(1000, sc) == sc) by (nonlinear_arith)
            requires
                100 <= sc <= 10_000,
        ;
        assert(100 <= sxf.scale <= 10_000);
    }
    let inv = div_trunc(1_000_000, sxf.scale);
    proof {
        assert(100 <= 1_000_000int / (sxf.scale as int) <= 10_000) by (nonlinear_arith)
            requires
                100 <= sxf.scale <= 10_000,
        ;
    }
    let part = w.entities[sl].parent.unwrap();
    let mut e2 = e;
    e2.placed = false;
    e2.parent = Some(sl);
    e2.rune = Some(RuneData { affected_entity: Some(part), ..e.rune.unwrap() });
    e2.transform.pos = Vec2I { x: 0, y: 0 };
    e2.transform.z = 1;
    e2.transform.scale = inv;
    w.entities.set(ru, e2);
    proof {
        assert(w.entities@[ru as int] == slotted_rune_spec(s1, s1[ru as int], sl));
    }
    if let Some(m) = rep {
        proof {
            assert(m != ru);
        }
        let me = w.entities[m];
        let mut m2 = me;
        m2.parent = None;
        m2.rune = Some(RuneData { affected_entity: None, ..me.rune.unwrap() });
        m2.transform.pos = me.rune.unwrap().default_position;
        m2.transform.z = me.render_layer;
        m2.transform.scale = SCALE_ONE;
        w.entities.set(m, m2);
        proof {
            assert(w.entities@[m as int] == replaced_rune_spec(s1[m as int]));
        }
    }
    proof {
        let s2 = w.entities@;
        assert forall|j: int| 0 <= j < s2.len() implies entity_ok(s2, j) by {
            assert(entity_ok(s1, j));
            if let Some(pj) = s2[j].parent {
                if j == ru as int {
                    assert(pj == sl);
                    assert(s2[pj as int].rune_slot == s1[pj as int].rune_slot);
                } else {
                    assert(s2[j].parent == s1[j].parent);
                    assert(entity_ok(s1, pj as int));
                    if pj as int == ru as int || (rep matches Some(m) && pj == m) {
                        assert(s1[pj as int].rune is Some);
                        assert(!s1[pj as int].rune_slot && !s1[pj as int].machine_part);
                    } else {
                        assert(s2[pj as int] == s1[pj as int]);
                    }
                }
            }
        }
    }
}

/// Handles the placed rune, if there is exactly one: it leaves the
/// placed state at once; if the contact list links it to an open slot it
/// snaps in, pushing out a rune already seated there; else it returns to
/// its resting place.
#[verifier::rlimit(100)]
pub fn handle_collision_rune_with_rune_slot(w: &mut GameWorld, pairs: &Vec<ContactPair>) -> (r:
    RuneSlotOutcome)
    requires
        wf(*old(w)),
        pairs_ok(pairs@, old(w).entities@.len() as int),
    ensures
        wf(*final(w)),
        final(w).entities@.len() == old(w).entities@.len(),
        final(w).player == old(w).player,
        (r == RuneSlotOutcome::NotApplicable) <==> !has_sole_match(
            old(w).entities@,
            Query::PlacedRune,
        ),
        r == RuneSlotOutcome::NotApplicable ==> final(w).entities@ == old(w).entities@,
        r matches RuneSlotOutcome::RuneReturned { rune } ==> {
            &&& sole_match(old(w).entities@, Query::PlacedRune, rune as int)
            &&& linked_other(old(w).entities@, rune, Query::OpenRuneSlot, pairs@) is None
            &&& final(w).entities@ == old(w).entities@.update(
                rune as int,
                returned_rune_spec(old(w).entities@[rune as int]),
            )
        },
        r matches RuneSlotOutcome::RunePlaced { rune, slot, replaced } ==> {
            &&& sole_match(old(w).entities@, Query::PlacedRune, rune as int)
            &&& linked_other(old(w).entities@, rune, Query::OpenRuneSlot, pairs@) == Some(slot)
            &&& (match replaced {
                Some(m) => linked_other(old(w).entities@, rune, Query::SlottedRune, pairs@)
                    == Some(m),
                None => linked_other(old(w).entities@, rune, Query::SlottedRune, pairs@) is None,
            })
            &&& final(w).entities@ == (match replaced {
                Some(m) => old(w).entities@.update(
                    rune as int,
                    slotted_rune_spec(old(w).entities@, old(w).entities@[rune as int], slot),
                ).update(m as int, replaced_rune_spec(old(w).entities@[m as int])),
                None => old(w).entities@.update(
                    rune as int,
                    slotted_rune_spec(old(w).entities@, old(w).entities@[rune as int], slot),
                ),
            })
        },
{
    let ru = match find_sole(&w.entities, Query::PlacedRune) {
        Some(x) => x,
        None => {
            return RuneSlotOutcome::NotApplicable;
        },
    };
    let ghost s1 = old(w).entities@;
    proof {
        assert(entity_ok(s1, ru as int));
    }
    let slot_hit = find_link(&w.entities, pairs, ru, Query::OpenRuneSlot);
    let e = w.entities[ru];
    match slot_hit {
        None => {
            let mut e2 = e;
            e2.placed = false;
            e2.transform.pos = e.rune.unwrap().default_position;
            w.entities.set(ru, e2);
            proof {
                let s2 = w.entities@;
                assert forall|k: int| 0 <= k < s1.len() implies same_link_fields(s1[k], s2[k])
                    && entity_parent_link(s1, k) by {
                    assert(entity_ok(s1, k));
                }
                lemma_parent_links_preserved(s1, s2);
                assert forall|k: int| 0 <= k < s2.len() implies entity_ok(s2, k) by {
                    assert(entity_ok(s1, k));
                }
            }
            RuneSlotOutcome::RuneReturned { rune: ru }
        },
        Some(k) => {
            let p = pairs[k];
            let sl = if p.collider1 == ru {
                p.collider2
            } else {
                p.collider1
            };
            proof {
                lemma_first_link_from(s1, ru, Query::OpenRuneSlot, pairs@, 0);
                assert(query_matches(Query::OpenRuneSlot, s1[sl as int]));
            }
            let rep_hit = find_link(&w.entities, pairs, ru, Query::SlottedRune);
            let replaced: Option<usize> = match rep_hit {
                None => None,
                Some(kk) => {
                    let pp = pairs[kk];
                    let m = if pp.collider1 == ru {
                        pp.collider2
                    } else {
                        pp.collider1
                    };
                    proof {
                        lemma_first_link_from(s1, ru, Query::SlottedRune, pairs@, 0);
                        assert(query_matches(Query::SlottedRune, s1[m as int]));
                    }
                    Some(m)
                },
            };
            place_rune(w, ru, sl, replaced);
            RuneSlotOutcome::RunePlaced { rune: ru, slot: sl, replaced }
        },
    }
}

/// One entity after a blue ball is consumed by a rune: the ball is
/// gone, the rune glows blue, and the effect lands on the aimed entity.
pub open spec fn consumed_spec(
    e: Entity,
    is_ball: bool,
    is_rune: bool,
    is_affected: bool,
    eff: crate::world::RuneEffect,
) -> Entity {
    Entity {
        alive: if is_ball {
            false
        } else {
            e.alive
        },
        tint: if is_rune {
            crate::world::Tint::MagicalBlue
        } else {
            e.tint
        },
        rune_effect: if is_affected {
            Some(eff)
        } else {
            e.rune_effect
        },
        ..e
    }
}

/// The slotted rune `ru`, aimed at a machine part, consumes the blue
/// ball `b`: the ball is gone, the rune glows blue, and its effect lands
/// on the part.
#[verifier::rlimit(100)]
fn consume_ball(w: &mut GameWorld, b: usize, ru: usize)
    requires
        wf(*old(w)),
        b < old(w).entities@.len(),
        ru < old(w).entities@.len(),
        query_matches(Query::RuneWithTarget, old(w).entities@[ru as int]),
    ensures
        wf(*final(w)),
        final(w).player == old(w).player,
        final(w).entities@.len() == old(w).entities@.len(),
        forall|j: int|
            0 <= j < old(w).entities@.len() ==> final(w).entities@[j] == consumed_spec(
                old(w).entities@[j],
                j == b as int,
                j == ru as int,
                j == old(w).entities@[ru as int].rune.unwrap().affected_entity.unwrap() as int,
                old(w).entities@[ru as int].rune.unwrap().rune_effect,
            ),
{
    let ghost s1 = old(w).entities@;
    proof {
        assert(entity_ok(s1, ru as int));
    }
    let mut be = w.entities[b];
    be.alive = false;
    w.entities.set(b, be);
    let re = w.entities[ru];
    let affected = re.rune.unwrap().affected_entity.unwrap();
    let eff = re.rune.unwrap().rune_effect;
    let mut re2 = re;
    re2.tint = crate::world::Tint::MagicalBlue;
    w.entities.set(ru, re2);
    let mut ae = w.entities[affected];
    ae.rune_effect = Some(eff);
    w.entities.set(affected, ae);
    proof {
        let s2 = w.entities@;
        assert forall|j: int| 0 <= j < s1.len() implies s2[j] == consumed_spec(
            s1[j],
            j == b as int,
            j == ru as int,
            j == affected as int,
            eff,
        ) by {}
        lemma_consume_wf(s1, s2, b as int, ru as int, affected as int, eff);
    }
}

/// A world rewritten by `consumed_spec` stays well formed.
proof fn lemma_consume_wf(
    s1: Seq<Entity>,
    s2: Seq<Entity>,
    b: int,
    ru: int,
    aff: int,
    eff: crate::world::RuneEffect,
)
    requires
        forall|j: int| 0 <= j < s1.len() ==> entity_ok(s1, j),
        s2.len() == s1.len(),
        0 <= ru < s1.len(),
        s1[ru].rune is Some,
        eff == s1[ru].rune.unwrap().rune_effect,
        forall|j: int|
            0 <= j < s1.len() ==> #[trigger] s2[j] == consumed_spec(
                s1[j],
                j == b,
                j == ru,
                j == aff,
                eff,
            ),
    ensures
        forall|j: int| 0 <= j < s2.len() ==> entity_ok(s2, j),
{
    assert forall|j: int| 0 <= j < s1.len() implies same_link_fields(s1[j], s2[j])
        && entity_parent_link(s1, j) by {
        assert(entity_ok(s1, j));
        assert(s2[j] == consumed_spec(s1[j], j == b, j == ru, j == aff, eff));
    }
    lemma_parent_links_preserved(s1, s2);
    assert forall|j: int| 0 <= j < s2.len() implies entity_ok(s2, j) by {
        assert(entity_ok(s1, j));
        assert(entity_ok(s1, ru));
        assert(s2[j] == consumed_spec(s1[j], j == b, j == ru, j == aff, eff));
    }
}

/// What came of checking the loose blue ball against the runes.
#[derive(Clone, Copy, PartialEq, Eq, Debug)]
pub enum BlueBallRuneOutcome {
    /// There is no single loose blue ball: nothing happens.
    NotApplicable,
    /// The ball touched no slotted, aimed rune: nothing changes.
    NoContact { ball: usize },
    /// The ball was consumed by the rune: the rune's effect landed on the
    /// entity its slot aims at, and the rune glows blue.
    EffectTaken { ball: usize, rune: usize, affected: usize },
}

/// Handles the blue ball out of the player's reach, if there is exactly
/// one: when the contact list links it to a rune aimed at a machine
/// part, the ball is consumed, the rune's effect lands on that part, and
/// the rune glows blue. A rune lying loose, aimed at nothing, does not
/// consume the ball.
#[verifier::rlimit(100)]
pub fn handle_collision_blue_ball_and_runes(w: &mut GameWorld, pairs: &Vec<ContactPair>) -> (r:
    BlueBallRuneOutcome)
    requires
        wf(*old(w)),
        pairs_ok(pairs@, old(w).entities@.len() as int),
    ensures
        wf(*final(w)),
        final(w).player == old(w).player,
        final(w).entities@.len() == old(w).entities@.len(),
        (r == BlueBallRuneOutcome::NotApplicable) <==> !has_sole_match(
            old(w).entities@,
            Query::LooseBlueBall,
        ),
        r == BlueBallRuneOutcome::NotApplicable ==> final(w).entities@ == old(w).entities@,
        r matches BlueBallRuneOutcome::NoContact { ball } ==> {
            &&& sole_match(old(w).entities@, Query::LooseBlueBall, ball as int)
            &&& linked_other(old(w).entities@, ball, Query::RuneWithTarget, pairs@) is None
            &&& final(w).entities@ == old(w).entities@
        },
        r matches BlueBallRuneOutcome::EffectTaken { ball, rune, affected } ==> {
            let s1 = old(w).entities@;
            &&& sole_match(s1, Query::LooseBlueBall, ball as int)
            &&& linked_other(s1, ball, Query::RuneWithTarget, pairs@) == Some(rune)
            &&& affected == s1[rune as int].rune.unwrap().affected_entity.unwrap()
            &&& affected < s1.len()
            &&& forall|j: int|
                0 <= j < s1.len() ==> final(w).entities@[j] == consumed_spec(
                    s1[j],
                    j == ball as int,
                    j == rune as int,
                    j == affected as int,
                    s1[rune as int].rune.unwrap().rune_effect,
                )
        },
{
    let b = match find_sole(&w.entities, Query::LooseBlueBall) {
        Some(b) => b,
        None => {
            return BlueBallRuneOutcome::NotApplicable;
        },
    };
    let ghost s1 = old(w).entities@;
    let hit = find_link(&w.entities, pairs, b, Query::RuneWithTarget);
    match hit {
        None => BlueBallRuneOutcome::NoContact { ball: b },
        Some(k) => {
            let p = pairs[k];
            let ru = if p.collider1 == b {
                p.collider2
            } else {
                p.collider1
            };
            proof {
                lemma_first_link_from(s1, b, Query::RuneWithTarget, pairs@, 0);
                assert(query_matches(Query::RuneWithTarget, s1[ru as int]));
                assert(entity_ok(s1, ru as int));
            }
            let re = w.entities[ru];
            let affected = re.rune.unwrap().affected_entity.unwrap();
            consume_ball(w, b, ru);
            BlueBallRuneOutcome::EffectTaken { ball: b, rune: ru, affected }
        },
    }
}

/// What came of checking the blue ball against the trigger stars.
#[derive(Clone, Copy, PartialEq, Eq, Debug)]
pub enum BallStarOutcome {
    /// The machine is not running, or there is no single blue ball:
    /// nothing happens.
    NotRunning,
    /// The ball touched no trigger star: nothing changes.
    NoContact { ball: usize },
    /// The ball hit a trigger star directly, without ever meeting a rune:
    /// it is gone and the machine has failed.
    BallLost { ball: usize },
}

/// Handles a blue ball touching a trigger star directly while the
/// machine runs: the ball is removed and the machine has failed; the
/// caller then raises the machine-failed signal.
pub fn handle_collision_blue_ball_with_trigger_star(
    w: &mut GameWorld,
    pairs: &Vec<ContactPair>,
) -> (r: BallStarOutcome)
    requires
        wf(*old(w)),
        pairs_ok(pairs@, old(w).entities@.len() as int),
    ensures
        wf(*final(w)),
        final(w).player == old(w).player,
        final(w).entities@.len() == old(w).entities@.len(),
        (r == BallStarOutcome::NotRunning) <==> !(old(w).player.waiting_for_machine
            && has_sole_match(old(w).entities@, Query::BlueBall)),
        r == BallStarOutcome::NotRunning ==> final(w).entities@ == old(w).entities@,
        r matches BallStarOutcome::NoContact { ball } ==> {
            &&& sole_match(old(w).entities@, Query::BlueBall, ball as int)
            &&& linked_other(old(w).entities@, ball, Query::TriggerStar, pairs@) is None
            &&& final(w).entities@ == old(w).entities@
        },
        r matches BallStarOutcome::BallLost { ball } ==> {
            &&& sole_match(old(w).entities@, Query::BlueBall, ball as int)
            &&& linked_other(old(w).entities@, ball, Query::TriggerStar, pairs@) is Some
            &&& final(w).entities@ == old(w).entities@.update(
                ball as int,
                Entity { alive: false, ..old(w).entities@[ball as int] },
            )
        },
{
    if !w.player.waiting_for_machine {
        return BallStarOutcome::NotRunning;
    }
    let b = match find_sole(&w.entities, Query::BlueBall) {
        Some(b) => b,
        None => {
            return BallStarOutcome::NotRunning;
        },
    };
    let ghost s1 = old(w).entities@;
    let hit = find_link(&w.entities, pairs, b, Query::TriggerStar);
    match hit {
        None => BallStarOutcome::NoContact { ball: b },
        Some(_) => {
            let mut be = w.entities[b];
            be.alive = false;
            w.entities.set(b, be);
            proof {
                let s2 = w.entities@;
                assert forall|j: int| 0 <= j < s1.len() implies same_link_fields(s1[j], s2[j])
                    && entity_parent_link(s1, j) by {
                    assert(entity_ok(s1, j));
                }
                lemma_parent_links_preserved(s1, s2);
                assert forall|j: int| 0 <= j < s2.len() implies entity_ok(s2, j) by {
                    assert(entity_ok(s1, j));
                }
            }
            BallStarOutcome::BallLost { ball: b }
        },
    }
}

/// The pair touches a trigger star at rest on one side and an effect
/// carrier on the other.
pub open spec fn is_star_contact(s: Seq<Entity>, p: ContactPair) -> bool {
    ||| (query_matches(Query::IdleTriggerStar, s[p.collider1 as int]) && query_matches(
        Query::EffectCarrier,
        s[p.collider2 as int],
    ))
    ||| (query_matches(Query::IdleTriggerStar, s[p.collider2 as int]) && query_matches(
        Query::EffectCarrier,
        s[p.collider1 as int],
    ))
}

/// The star side of a star contact.
pub open spec fn star_side(s: Seq<Entity>, p: ContactPair) -> usize {
    if query_matches(Query::IdleTriggerStar, s[p.collider1 as int]) {
        p.collider1
    } else {
        p.collider2
    }
}

/// The carrier side of a star contact.
pub open spec fn carrier_side(s: Seq<Entity>, p: ContactPair) -> usize {
    if query_matches(Query::IdleTriggerStar, s[p.collider1 as int]) {
        p.collider2
    } else {
        p.collider1
    }
}

/// The first star contact at or after `k`.
pub open spec fn first_star_contact_from(s: Seq<Entity>, ps: Seq<ContactPair>, k: int) -> Option<
    int,
>
    recommends
        0 <= k <= ps.len(),
    decreases ps.len() - k,
    when 0 <= k <= ps.len()
{
    if k >= ps.len() {
        None
    } else if is_star_contact(s, ps[k]) {
        Some(k)
    } else {
        first_star_contact_from(s, ps, k + 1)
    }
}

/// Finds the first star contact in the list.
fn find_star_contact(v: &Vec<Entity>, pairs: &Vec<ContactPair>) -> (r: Option<usize>)
    requires
        pairs_ok(pairs@, v@.len() as int),
    ensures
        r matches Some(k) ==> k < pairs@.len() && first_star_contact_from(v@, pairs@, 0) == Some(
            k as int,
        ),
        r is None ==> first_star_contact_from(v@, pairs@, 0) is None,
{
    let n = pairs.len();
    let mut k: usize = 0;
    while k < n
        invariant
            0 <= k <= n,
            n == pairs@.len(),
            pairs_ok(pairs@, v@.len() as int),
            first_star_contact_from(v@, pairs@, 0) == first_star_contact_from(v@, pairs@, k as int),
        decreases n - k,
    {
        let p = pairs[k];
        proof {
            assert(p.collider1 < v@.len() && p.collider2 < v@.len());
        }
        let hit = (entity_matches(Query::IdleTriggerStar, &v[p.collider1]) && entity_matches(
            Query::EffectCarrier,
            &v[p.collider2],
        )) || (entity_matches(Query::IdleTriggerStar, &v[p.collider2]) && entity_matches(
            Query::EffectCarrier,
            &v[p.collider1],
        ));
        if hit {
            return Some(k);
        }
        k = k + 1;
    }
    None
}

/// A signal the running machine raises toward the next step of the
/// chain.
#[derive(Clone, Copy, PartialEq, Eq, Debug)]
pub enum MachineSignal {
    /// The star's follow-up entity is to be activated.
    Activated { target: usize },
    /// The star has no follow-up: the machine has failed.
    MachineFailed,
}

/// What came of checking effect carriers against trigger stars.
#[derive(Clone, Copy, PartialEq, Eq, Debug)]
pub enum StarContactOutcome {
    /// The machine is not running: nothing happens.
    NotRunning,
    /// No effect carrier touches a trigger star: nothing changes.
    NoContact,
    /// A carrier reached a star: the star glows blue and raises its
    /// signal, the carrier loses its effect, and the used-up rune in the
    /// carrier's slot, if any, burns out.
    StarTouched { star: usize, affected: usize, slot: Option<usize>, signal: MachineSignal },
}

/// A rune seated in the slot at `slot` that a star contact burns out.
pub open spec fn is_burnable_child(e: Entity, slot: usize) -> bool {
    &&& e.alive
    &&& e.rune is Some
    &&& e.star_trigger is None
    &&& e.rune_effect is None
    &&& !e.rune_slot
    &&& e.parent == Some(slot)
}

/// One entity after a star contact: the star glows blue, the carrier
/// loses its effect, and the used-up rune burns out.
pub open spec fn star_touch_spec(e: Entity, is_star: bool, is_affected: bool, is_burned: bool) -> Entity {
    Entity {
        tint: if is_star {
            crate::world::Tint::MagicalBlue
        } else if is_burned {
            crate::world::Tint::BurnedOut
        } else {
            e.tint
        },
        rune_effect: if is_affected {
            None
        } else {
            e.rune_effect
        },
        ..e
    }
}

/// Whether entity `j` burns out in a star contact with carrier
/// `affected`: it sits in the first slot attached to the carrier.
pub open spec fn burns_out(s: Seq<Entity>, j: int, affected: usize) -> bool {
    first_match(s, Query::ChildSlot(affected)) matches Some(sl) && is_burnable_child(
        s[j],
        sl as usize,
    )
}

/// Handles an effect carrier touching a trigger star while the machine
/// runs: the star glows blue and raises its signal — activation of its
/// follow-up entity, or failure when it has none — the carrier loses its
/// effect, and the used-up rune sitting in the carrier's slot burns out.
#[verifier::rlimit(100)]
pub fn handle_collision_rune_effect_with_trigger_star(
    w: &mut GameWorld,
    pairs: &Vec<ContactPair>,
) -> (r: StarContactOutcome)
    requires
        wf(*old(w)),
        pairs_ok(pairs@, old(w).entities@.len() as int),
    ensures
        wf(*final(w)),
        final(w).player == old(w).player,
        final(w).entities@.len() == old(w).entities@.len(),
        (r == StarContactOutcome::NotRunning) <==> !old(w).player.waiting_for_machine,
        r == StarContactOutcome::NotRunning || r == StarContactOutcome::NoContact ==> final(w).entities@ == old(w).entities@,
        r == StarContactOutcome::NoContact ==> first_star_contact_from(
            old(w).entities@,
            pairs@,
            0,
        ) is None,
        old(w).player.waiting_for_machine && first_star_contact_from(
            old(w).entities@,
            pairs@,
            0,
        ) is Some ==> r is StarTouched,
        r matches StarContactOutcome::StarTouched { star, affected, slot, signal } ==> {
            let s1 = old(w).entities@;
            &&& first_star_contact_from(s1, pairs@, 0) matches Some(k) && star == star_side(
                s1,
                pairs@[k],
            ) && affected == carrier_side(s1, pairs@[k])
            &&& signal == (match s1[star as int].star_trigger.unwrap().follow_up_entity {
                Some(f) => MachineSignal::Activated { target: f },
                None => MachineSignal::MachineFailed,
            })
            &&& (signal matches MachineSignal::Activated { target } ==> target < s1.len())
            &&& (match slot {
                Some(sl) => first_match(s1, Query::ChildSlot(affected)) == Some(sl as int),
                None => first_match(s1, Query::ChildSlot(affected)) is None,
            })
            &&& forall|j: int|
                0 <= j < s1.len() ==> final(w).entities@[j] == star_touch_spec(
                    s1[j],
                    j == star as int,
                    j == affected as int,
                    burns_out(s1, j, affected),
                )
        },
{
    if !w.player.waiting_for_machine {
        return StarContactOutcome::NotRunning;
    }
    let ghost s1 = old(w).entities@;
    let hit = match find_star_contact(&w.entities, pairs) {
        None => {
            return StarContactOutcome::NoContact;
        },
        Some(k) => k,
    };
    let p = pairs[hit];
    let (star, affected) = if entity_matches(Query::IdleTriggerStar, &w.entities[p.collider1]) {
        (p.collider1, p.collider2)
    } else {
        (p.collider2, p.collider1)
    };
    proof {
        lemma_first_star_contact_from(s1, pairs@, 0);
        assert(is_star_contact(s1, pairs@[hit as int]));
        assert(entity_ok(s1, star as int));
    }
    let signal = match w.entities[star].star_trigger.unwrap().follow_up_entity {
        Some(f) => MachineSignal::Activated { target: f },
        None => MachineSignal::MachineFailed,
    };
    let slot = crate::query::find_first(&w.entities, Query::ChildSlot(affected));
    proof {
        crate::query::lemma_first_match_from(s1, Query::ChildSlot(affected), 0);
    }
    let n = w.entities.len();
    let mut i: usize = 0;
    while i < n
        invariant
            wf(*old(w)),
            s1 == old(w).entities@,
            n == s1.len(),
            w.entities@.len() == n,
            w.player == old(w).player,
            0 <= i <= n,
            star < n,
            affected < n,
            (match slot {
                Some(sl) => first_match(s1, Query::ChildSlot(affected)) == Some(sl as int) && sl
                    < n,
                None => first_match(s1, Query::ChildSlot(affected)) is None,
            }),
            forall|j: int|
                0 <= j < i ==> w.entities@[j] == star_touch_spec(
                    s1[j],
                    j == star as int,
                    j == affected as int,
                    burns_out(s1, j, affected),
                ),
            forall|j: int| i <= j < n ==> w.entities@[j] == s1[j],
        decreases n - i,
    {
        let e = w.entities[i];
        let mut e2 = e;
        if i == star {
            e2.tint = crate::world::Tint::MagicalBlue;
        } else if let Some(sl) = slot {
            if e.alive && e.rune.is_some() && e.star_trigger.is_none() && e.rune_effect.is_none()
                && !e.rune_slot {
                let same_parent = match e.parent {
                    Some(pp) => pp == sl,
                    None => false,
                };
                if same_parent {
                    e2.tint = crate::world::Tint::BurnedOut;
                }
            }
        }
        if i == affected {
            e2.rune_effect = None;
        }
        w.entities.set(i, e2);
        proof {
            assert(w.entities@[i as int] == star_touch_spec(
                s1[i as int],
                i as int == star as int,
                i as int == affected as int,
                burns_out(s1, i as int, affected),
            ));
        }
        i = i + 1;
    }
    proof {
        let s2 = w.entities@;
        assert forall|j: int| 0 <= j < s1.len() implies same_link_fields(s1[j], s2[j])
            && entity_parent_link(s1, j) by {
            assert(entity_ok(s1, j));
        }
        lemma_parent_links_preserved(s1, s2);
        assert forall|j: int| 0 <= j < s2.len() implies entity_ok(s2, j) by {
            assert(entity_ok(s1, j));
        }
    }
    StarContactOutcome::StarTouched { star, affected, slot, signal }
}

/// What `first_star_contact_from` finds is a star contact, nothing
/// before it is one, and `None` means the list holds none.
pub proof fn lemma_first_star_contact_from(s: Seq<Entity>, ps: Seq<ContactPair>, k: int)
    requires
        0 <= k <= ps.len(),
    ensures
        first_star_contact_from(s, ps, k) matches Some(m) ==> k <= m < ps.len() && is_star_contact(
            s,
            ps[m],
        ) && forall|j: int| k <= j < m ==> !is_star_contact(s, ps[j]),
        first_star_contact_from(s, ps, k) is None ==> forall|j: int|
            k <= j < ps.len() ==> !is_star_contact(s, ps[j]),
    decreases ps.len() - k,
{
    if k < ps.len() && !is_star_contact(s, ps[k]) {
        lemma_first_star_contact_from(s, ps, k + 1);
    }
}

/// What `first_link_from` finds links, nothing before it links, and
/// `None` means no pair links at all.
pub proof fn lemma_first_link_from(
    s: Seq<Entity>,
    b: usize,
    q: Query,
    ps: Seq<ContactPair>,
    k: int,
)
    requires
        0 <= k <= ps.len(),
    ensures
        first_link_from(s, b, q, ps, k) matches Some(m) ==> k <= m < ps.len() && pair_links(
            s,
            b,
            q,
            ps[m],
        ) && forall|j: int| k <= j < m ==> !pair_links(s, b, q, ps[j]),
        first_link_from(s, b, q, ps, k) is None ==> forall|j: int|
            k <= j < ps.len() ==> !pair_links(s, b, q, ps[j]),
    decreases ps.len() - k,
{
    if k < ps.len() && !pair_links(s, b, q, ps[k]) {
        lemma_first_link_from(s, b, q, ps, k + 1);
    }
}

} // verus!
