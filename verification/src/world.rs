//! The game world: entities made of plain components, a player record, and
//! the well-formedness invariant that every rule of the game preserves.
//!
//! An entity is a bundle of optional components, as in an entity-component
//! world: markers (`card`, `rune_slot`, ...), payloads (`rune`,
//! `star_trigger`, ...), a local transform and an optional parent link.
//! Entities are addressed by index; despawning clears `alive` so that
//! indices held elsewhere never dangle.

use vstd::prelude::*;

use crate::geom::Vec2I;
use crate::geom::in_size;
use crate::geom::in_speed;
use crate::geom::in_world;
use crate::geom::scale_spec;
use crate::geom::scale_coord;
use crate::geom::MAX_COORD;
use crate::geom::MAX_SCALE;
use crate::geom::MIN_SCALE;
use crate::geom::SCALE_ONE;

verus! {

/// Shape of the collider to attach to an object once its sprite size is
/// known.
#[derive(Clone, Copy, PartialEq, Eq, Structural, Debug)]
pub enum ColliderType {
    Circle,
    Rectangle,
}

/// The movement a rune grants to the machine part its slot belongs to.
#[derive(Clone, Copy, PartialEq, Eq, Structural, Debug)]
pub enum RuneEffectType {
    MoveUp,
    MoveDown,
    MoveLeft,
    MoveRight,
}

/// The tint painted over an object's sprite.
#[derive(Clone, Copy, PartialEq, Eq, Structural, Debug)]
pub enum Tint {
    Normal,
    MagicalBlue,
    BurnedOut,
}

/// The effect payload a rune carries: a kind and, for movement kinds, a
/// speed in units per second.
#[derive(Clone, Copy, PartialEq, Eq, Debug)]
pub struct RuneEffect {
    pub rune_effect_type: RuneEffectType,
    pub rune_effect_move_speed: Option<Vec2I>,
}

/// A rune: where it rests when not slotted, which entity its slot feeds,
/// and the effect it grants.
#[derive(Clone, Copy, PartialEq, Eq, Debug)]
pub struct RuneData {
    pub default_position: Vec2I,
    pub affected_entity: Option<usize>,
    pub rune_effect: RuneEffect,
}

/// A collider still to be attached: its shape and a factor (in
/// thousandths) applied to the sprite size.
#[derive(Clone, Copy, PartialEq, Eq, Debug)]
pub struct AddCollider {
    pub collider_scale: i64,
    pub collider_type: ColliderType,
}

/// A trigger star's payload: the entity to activate when the star is hit,
/// or nothing, in which case the machine fails.
#[derive(Clone, Copy, PartialEq, Eq, Debug)]
pub struct StarTrigger {
    pub follow_up_entity: Option<usize>,
}

/// A local transform: position in the parent's frame (or the world frame
/// for top-level entities), drawing depth, and uniform scale in
/// thousandths.
#[derive(Clone, Copy, PartialEq, Eq, Structural, Debug)]
pub struct Transform2 {
    pub pos: Vec2I,
    pub z: i64,
    pub scale: i64,
}

/// One entity of the world, with every component the rules read or write.
#[derive(Clone, Copy, PartialEq, Eq, Debug)]
pub struct Entity {
    /// Cleared on despawn; dead entities are skipped by every rule.
    pub alive: bool,
    pub transform: Transform2,
    /// The entity this one is attached to, if any.
    pub parent: Option<usize>,
    /// The drawing depth this entity returns to when detached.
    pub render_layer: i64,
    pub tint: Tint,
    /// A sprite size forced by the scene, taking precedence over the image.
    pub custom_size: Option<Vec2I>,
    /// The size of the loaded image, handed in once the asset is ready.
    pub image_size: Option<Vec2I>,
    /// Linear velocity, carried out by the physics engine.
    pub velocity: Vec2I,
    pub pickable: bool,
    pub picked: bool,
    pub placed: bool,
    pub card: bool,
    pub letter: bool,
    pub machine_part: bool,
    pub donut_circle: bool,
    pub blue_ball: bool,
    /// A grey ball's resting position.
    pub grey_ball: Option<Vec2I>,
    /// A firing mechanism's firing direction, in units per second.
    pub ball_firing_thingy: Option<Vec2I>,
    pub rune_slot: bool,
    pub rune: Option<RuneData>,
    /// An effect granted to this entity by a consumed rune.
    pub rune_effect: Option<RuneEffect>,
    pub add_collider: Option<AddCollider>,
    pub star_trigger: Option<StarTrigger>,
}

/// The player's interaction state.
#[derive(Clone, Copy, PartialEq, Eq, Structural, Debug)]
pub struct PlayerState {
    pub can_pick: bool,
    pub attempts_pick: bool,
    pub attempts_release: bool,
    pub waiting_for_machine: bool,
    pub game_over: bool,
}

/// The whole game state.
#[derive(Clone, Debug)]
pub struct GameWorld {
    pub player: PlayerState,
    pub entities: Vec<Entity>,
}

/// A transform resolved into world coordinates.
#[derive(Clone, Copy, PartialEq, Eq, Structural, Debug)]
pub struct WorldXf {
    pub pos: Vec2I,
    pub scale: i64,
}

/// An entity with no components set: alive, untinted, unscaled, at the
/// origin.
pub open spec fn blank_spec() -> Entity {
    Entity {
        alive: true,
        transform: Transform2 { pos: Vec2I { x: 0, y: 0 }, z: 0, scale: SCALE_ONE },
        parent: None,
        render_layer: 0,
        tint: Tint::Normal,
        custom_size: None,
        image_size: None,
        velocity: Vec2I { x: 0, y: 0 },
        pickable: false,
        picked: false,
        placed: false,
        card: false,
        letter: false,
        machine_part: false,
        donut_circle: false,
        blue_ball: false,
        grey_ball: None,
        ball_firing_thingy: None,
        rune_slot: false,
        rune: None,
        rune_effect: None,
        add_collider: None,
        star_trigger: None,
    }
}

/// Builds the blank entity `blank_spec` describes.
pub fn blank_entity() -> (e: Entity)
    ensures
        e == blank_spec(),
{
    Entity {
        alive: true,
        transform: Transform2 { pos: Vec2I { x: 0, y: 0 }, z: 0, scale: SCALE_ONE },
        parent: None,
        render_layer: 0,
        tint: Tint::Normal,
        custom_size: None,
        image_size: None,
        velocity: Vec2I { x: 0, y: 0 },
        pickable: false,
        picked: false,
        placed: false,
        card: false,
        letter: false,
        machine_part: false,
        donut_circle: false,
        blue_ball: false,
        grey_ball: None,
        ball_firing_thingy: None,
        rune_slot: false,
        rune: None,
        rune_effect: None,
        add_collider: None,
        star_trigger: None,
    }
}

/// A movement effect's speed, if any, stays within the speed bound.
pub open spec fn effect_bounded(ef: RuneEffect) -> bool {
    ef.rune_effect_move_speed matches Some(v) ==> in_speed(v)
}

/// Every numeric component of the entity stays within the world's bounds.
pub open spec fn entity_bounded(e: Entity) -> bool {
    &&& in_world(e.transform.pos)
    &&& -MAX_COORD <= e.transform.z <= MAX_COORD
    &&& MIN_SCALE <= e.transform.scale <= MAX_SCALE
    &&& -MAX_COORD <= e.render_layer <= MAX_COORD
    &&& in_speed(e.velocity)
    &&& (e.custom_size matches Some(v) ==> in_size(v))
    &&& (e.image_size matches Some(v) ==> in_size(v))
    &&& (e.grey_ball matches Some(p) ==> in_world(p))
    &&& (e.ball_firing_thingy matches Some(v) ==> in_speed(v))
    &&& (e.rune matches Some(r) ==> in_world(r.default_position) && effect_bounded(r.rune_effect))
    &&& (e.rune_effect matches Some(ef) ==> effect_bounded(ef))
    &&& (e.add_collider matches Some(a) ==> 0 <= a.collider_scale <= MAX_SCALE)
}

/// Roles an entity cannot mix: a rune is neither a slot nor a machine part
/// nor scenery, a slot is not a machine part, and a machine part keeps a
/// scale of one so that a slot's world scale is its own.
pub open spec fn entity_roles(e: Entity) -> bool {
    &&& (e.rune is Some ==> !e.rune_slot && !e.machine_part && !e.card && !e.letter
        && e.star_trigger is None)
    &&& (e.rune_slot ==> !e.machine_part)
    &&& (e.machine_part ==> e.transform.scale == SCALE_ONE)
}

/// The parent link keeps the hierarchy two levels deep: a slot sits on a
/// top-level machine part, and a rune sits in a slot.
pub open spec fn entity_parent_link(s: Seq<Entity>, i: int) -> bool {
    s[i].parent matches Some(p) ==> {
        &&& 0 <= p < s.len()
        &&& p != i
        &&& {
            ||| (s[i].rune_slot && s[p as int].machine_part && s[p as int].parent is None)
            ||| (s[i].rune is Some && s[p as int].rune_slot)
        }
    }
}

/// Entity indices stored in components point into the world.
pub open spec fn entity_refs(s: Seq<Entity>, i: int) -> bool {
    &&& (s[i].star_trigger matches Some(st) ==> (st.follow_up_entity matches Some(f) ==> f
        < s.len()))
    &&& (s[i].rune matches Some(r) ==> (r.affected_entity matches Some(a) ==> a < s.len()))
}

/// Everything the invariant asks of one entity.
pub open spec fn entity_ok(s: Seq<Entity>, i: int) -> bool {
    &&& entity_bounded(s[i])
    &&& entity_roles(s[i])
    &&& entity_parent_link(s, i)
    &&& entity_refs(s, i)
}

/// The world invariant: every entity is well formed.
pub open spec fn wf(w: GameWorld) -> bool {
    forall|i: int| 0 <= i < w.entities@.len() ==> entity_ok(w.entities@, i)
}

/// The fields `entity_parent_link` reads of other entities.
pub open spec fn same_link_fields(a: Entity, b: Entity) -> bool {
    &&& a.parent == b.parent
    &&& a.rune_slot == b.rune_slot
    &&& a.machine_part == b.machine_part
    &&& (a.rune is Some <==> b.rune is Some)
}

/// Parent links survive any rewrite of the world that keeps each entity's
/// link fields.
pub proof fn lemma_parent_links_preserved(s1: Seq<Entity>, s2: Seq<Entity>)
    requires
        s1.len() == s2.len(),
        forall|k: int| 0 <= k < s1.len() ==> same_link_fields(s1[k], s2[k]),
        forall|k: int| 0 <= k < s1.len() ==> entity_parent_link(s1, k),
    ensures
        forall|k: int| 0 <= k < s2.len() ==> entity_parent_link(s2, k),
{
    assert forall|k: int| 0 <= k < s2.len() implies entity_parent_link(s2, k) by {
        assert(entity_parent_link(s1, k));
        assert(same_link_fields(s1[k], s2[k]));
        if let Some(p) = s1[k].parent {
            assert(same_link_fields(s1[p as int], s2[p as int]));
        }
    }
}

/// A scale composed with a parent's world scale, both in thousandths.
pub open spec fn compose_scale(parent_scale: int, child_scale: int) -> int {
    parent_scale * child_scale / (SCALE_ONE as int)
}

/// The world scale of entity `i`: its own scale composed up the parent
/// chain.
pub open spec fn spec_global_scale(s: Seq<Entity>, i: int) -> int
    recommends
        0 <= i < s.len(),
{
    let e = s[i];
    match e.parent {
        None => e.transform.scale as int,
        Some(p) => {
            let ep = s[p as int];
            match ep.parent {
                None => compose_scale(ep.transform.scale as int, e.transform.scale as int),
                Some(q) => compose_scale(
                    compose_scale(s[q as int].transform.scale as int, ep.transform.scale as int),
                    e.transform.scale as int,
                ),
            }
        },
    }
}

/// The world x coordinate of entity `i`: each level adds its parent's
/// position to its own position scaled by the parent's world scale.
pub open spec fn spec_global_x(s: Seq<Entity>, i: int) -> int
    recommends
        0 <= i < s.len(),
{
    let e = s[i];
    match e.parent {
        None => e.transform.pos.x as int,
        Some(p) => {
            let ep = s[p as int];
            match ep.parent {
                None => ep.transform.pos.x + scale_spec(
                    e.transform.pos.x as int,
                    ep.transform.scale as int,
                ),
                Some(q) => {
                    let eg = s[q as int];
                    let px = eg.transform.pos.x + scale_spec(
                        ep.transform.pos.x as int,
                        eg.transform.scale as int,
                    );
                    let ps = compose_scale(eg.transform.scale as int, ep.transform.scale as int);
                    px + scale_spec(e.transform.pos.x as int, ps)
                },
            }
        },
    }
}

/// The world y coordinate of entity `i`.
pub open spec fn spec_global_y(s: Seq<Entity>, i: int) -> int
    recommends
        0 <= i < s.len(),
{
    let e = s[i];
    match e.parent {
        None => e.transform.pos.y as int,
        Some(p) => {
            let ep = s[p as int];
            match ep.parent {
                None => ep.transform.pos.y + scale_spec(
                    e.transform.pos.y as int,
                    ep.transform.scale as int,
                ),
                Some(q) => {
                    let eg = s[q as int];
                    let py = eg.transform.pos.y + scale_spec(
                        ep.transform.pos.y as int,
                        eg.transform.scale as int,
                    );
                    let ps = compose_scale(eg.transform.scale as int, ep.transform.scale as int);
                    py + scale_spec(e.transform.pos.y as int, ps)
                },
            }
        },
    }
}

/// Composes two scales given in thousandths.
fn compose_scale_exec(parent_scale: i64, child_scale: i64) -> (r: i64)
    requires
        0 <= parent_scale <= 100_000,
        0 <= child_scale <= MAX_SCALE,
    ensures
        r == compose_scale(parent_scale as int, child_scale as int),
        0 <= r <= 1_000_000,
        parent_scale <= 10_000 ==> r <= 100_000,
{
    proof {
        assert(0 <= parent_scale * child_scale <= 1_000_000_000 && (parent_scale <= 10_000
            ==> parent_scale * child_scale <= 100_000_000)) by (nonlinear_arith)
            requires
                0 <= parent_scale <= 100_000,
                0 <= child_scale <= 10_000,
        ;
    }
    let p: i64 = parent_scale * child_scale;
    proof {
        assert(0 <= p / 1000 && p / 1000 <= 1_000_000 && (p <= 100_000_000 ==> p / 1000
            <= 100_000)) by (nonlinear_arith)
            requires
                0 <= p <= 1_000_000_000,
        ;
    }
    let r = crate::geom::div_trunc(p, SCALE_ONE);
    r
}

/// Resolves entity `i`'s transform into world coordinates.
pub fn global_transform(w: &GameWorld, i: usize) -> (r: WorldXf)
    requires
        wf(*w),
        i < w.entities@.len(),
    ensures
        r.pos.x == spec_global_x(w.entities@, i as int),
        r.pos.y == spec_global_y(w.entities@, i as int),
        r.scale == spec_global_scale(w.entities@, i as int),
        -3_000_000_000_000_000 <= r.pos.x <= 3_000_000_000_000_000,
        -3_000_000_000_000_000 <= r.pos.y <= 3_000_000_000_000_000,
        0 <= r.scale <= 1_000_000,
{
    let e = w.entities[i];
    proof {
        assert(entity_ok(w.entities@, i as int));
    }
    match e.parent {
        None => WorldXf { pos: e.transform.pos, scale: e.transform.scale },
        Some(p) => {
            proof {
                assert(entity_ok(w.entities@, p as int));
            }
            let ep = w.entities[p];
            match ep.parent {
                None => {
                    let sc = compose_scale_exec(ep.transform.scale, e.transform.scale);
                    let gx = ep.transform.pos.x + scale_coord(e.transform.pos.x, ep.transform.scale);
                    let gy = ep.transform.pos.y + scale_coord(e.transform.pos.y, ep.transform.scale);
                    WorldXf { pos: Vec2I { x: gx, y: gy }, scale: sc }
                },
                Some(q) => {
                    proof {
                        assert(entity_ok(w.entities@, q as int));
                    }
                    let eg = w.entities[q];
                    let ps = compose_scale_exec(eg.transform.scale, ep.transform.scale);
                    let sc = compose_scale_exec(ps, e.transform.scale);
                    let px = eg.transform.pos.x + scale_coord(ep.transform.pos.x, eg.transform.scale);
                    let py = eg.transform.pos.y + scale_coord(ep.transform.pos.y, eg.transform.scale);
                    let gx = px + scale_coord(e.transform.pos.x, ps);
                    let gy = py + scale_coord(e.transform.pos.y, ps);
                    WorldXf { pos: Vec2I { x: gx, y: gy }, scale: sc }
                },
            }
        },
    }
}

/// Moves entity `i` to a world position handed in from outside (the
/// physics engine or the cursor); depth and scale are kept.
pub fn set_translation(w: &mut GameWorld, i: usize, pos: Vec2I)
    requires
        wf(*old(w)),
        i < old(w).entities@.len(),
        in_world(pos),
    ensures
        wf(*final(w)),
        final(w).player == old(w).player,
        final(w).entities@ == old(w).entities@.update(
            i as int,
            Entity {
                transform: Transform2 {
                    pos,
                    ..old(w).entities@[i as int].transform
                },
                ..old(w).entities@[i as int]
            },
        ),
{
    let mut e = w.entities[i];
    e.transform.pos = pos;
    w.entities.set(i, e);
    proof {
        let s1 = old(w).entities@;
        let s2 = w.entities@;
        assert forall|k: int| 0 <= k < s1.len() implies same_link_fields(s1[k], s2[k]) by {}
        assert forall|k: int| 0 <= k < s1.len() implies entity_parent_link(s1, k) by {
            assert(entity_ok(s1, k));
        }
        lemma_parent_links_preserved(s1, s2);
        assert forall|k: int| 0 <= k < s2.len() implies entity_ok(s2, k) by {
            assert(entity_ok(s1, k));
        }
    }
}

/// Records the size of entity `i`'s loaded image, handed in from the
/// asset store.
pub fn set_image_size(w: &mut GameWorld, i: usize, size: Vec2I)
    requires
        wf(*old(w)),
        i < old(w).entities@.len(),
        in_size(size),
    ensures
        wf(*final(w)),
        final(w).player == old(w).player,
        final(w).entities@ == old(w).entities@.update(
            i as int,
            Entity { image_size: Some(size), ..old(w).entities@[i as int] },
        ),
{
    let mut e = w.entities[i];
    e.image_size = Some(size);
    w.entities.set(i, e);
    proof {
        let s1 = old(w).entities@;
        let s2 = w.entities@;
        assert forall|k: int| 0 <= k < s1.len() implies same_link_fields(s1[k], s2[k]) by {}
        assert forall|k: int| 0 <= k < s1.len() implies entity_parent_link(s1, k) by {
            assert(entity_ok(s1, k));
        }
        lemma_parent_links_preserved(s1, s2);
        assert forall|k: int| 0 <= k < s2.len() implies entity_ok(s2, k) by {
            assert(entity_ok(s1, k));
        }
    }
}

} // verus!
