//! Entity queries: the component filters the rules select entities with,
//! and verified scans for the first or the only matching entity.
//!
//! A rule that expects a single subject (the one placed ball, the one
//! picked object) runs only when exactly one entity matches, as
//! `find_sole` reports; a rule that walks candidates in spawn order uses
//! `find_first`.

use vstd::prelude::*;

use crate::world::Entity;

verus! {

/// A component filter over entities. Each variant names the components an
/// entity must have or lack to be selected.
#[derive(Clone, Copy, PartialEq, Eq, Debug)]
pub enum Query {
    /// A grey ball just released by the player.
    PlacedGreyBall,
    /// A rune just released by the player.
    PlacedRune,
    /// A blue ball no longer in the player's reach.
    LooseBlueBall,
    /// Any blue ball.
    BlueBall,
    /// The object the player is dragging.
    Picked,
    /// The magic donut circle.
    LiveDonutCircle,
    /// Any grey ball still in play.
    LiveGreyBall,
    /// The card machine part.
    MachineCard,
    /// The letter machine part.
    MachineLetter,
    /// A firing mechanism at rest.
    IdleFiringThingy,
    /// A slot able to receive a rune: attached to a part and not itself a
    /// rune.
    OpenRuneSlot,
    /// A rune already sitting in some slot.
    SlottedRune,
    /// Any rune.
    AnyRune,
    /// A trigger star not yet carrying an effect.
    IdleTriggerStar,
    /// An entity carrying a rune effect, able to touch a trigger star.
    EffectCarrier,
    /// Any trigger star.
    TriggerStar,
    /// A slot that a trigger star may activate.
    ActivatableSlot,
    /// A rune sitting in the slot at this index.
    ChildRune(usize),
    /// A rune whose slot has aimed it at some machine part.
    RuneWithTarget,
    /// A rune slot attached to the entity at this index.
    ChildSlot(usize),
}

/// Whether the entity passes the filter. Dead entities never match.
pub open spec fn query_matches(q: Query, e: Entity) -> bool {
    e.alive && match q {
        Query::PlacedGreyBall => e.placed && e.grey_ball is Some,
        Query::PlacedRune => e.placed && e.rune is Some,
        Query::LooseBlueBall => e.blue_ball && !e.pickable,
        Query::BlueBall => e.blue_ball,
        Query::Picked => e.picked,
        Query::LiveDonutCircle => e.donut_circle,
        Query::LiveGreyBall => e.grey_ball is Some,
        Query::MachineCard => e.card && e.machine_part && e.rune is None && !e.letter,
        Query::MachineLetter => e.letter && e.machine_part && e.rune is None && !e.card,
        Query::IdleFiringThingy => e.ball_firing_thingy is Some && !e.placed,
        Query::OpenRuneSlot => e.rune_slot && e.parent is Some && !e.placed && e.rune is None,
        Query::SlottedRune => e.rune is Some && e.parent is Some && !e.placed && !e.rune_slot,
        Query::AnyRune => e.rune is Some,
        Query::IdleTriggerStar => e.star_trigger is Some && e.rune_effect is None && !e.rune_slot
            && e.rune is None,
        Query::EffectCarrier => e.rune_effect is Some && e.star_trigger is None && !e.rune_slot
            && e.rune is None,
        Query::TriggerStar => e.star_trigger is Some,
        Query::ActivatableSlot => e.rune_slot && e.parent is Some && e.rune is None
            && !e.donut_circle,
        Query::ChildRune(slot) => e.rune is Some && !e.donut_circle && e.parent == Some(slot),
        Query::RuneWithTarget => e.rune is Some && e.rune.unwrap().affected_entity is Some,
        Query::ChildSlot(part) => e.rune_slot && e.parent == Some(part),
    }
}

/// Tests the entity against the filter.
pub fn entity_matches(q: Query, e: &Entity) -> (b: bool)
    ensures
        b == query_matches(q, *e),
{
    e.alive && match q {
        Query::PlacedGreyBall => e.placed && e.grey_ball.is_some(),
        Query::PlacedRune => e.placed && e.rune.is_some(),
        Query::LooseBlueBall => e.blue_ball && !e.pickable,
        Query::BlueBall => e.blue_ball,
        Query::Picked => e.picked,
        Query::LiveDonutCircle => e.donut_circle,
        Query::LiveGreyBall => e.grey_ball.is_some(),
        Query::MachineCard => e.card && e.machine_part && e.rune.is_none() && !e.letter,
        Query::MachineLetter => e.letter && e.machine_part && e.rune.is_none() && !e.card,
        Query::IdleFiringThingy => e.ball_firing_thingy.is_some() && !e.placed,
        Query::OpenRuneSlot => e.rune_slot && e.parent.is_some() && !e.placed && e.rune.is_none(),
        Query::SlottedRune => e.rune.is_some() && e.parent.is_some() && !e.placed && !e.rune_slot,
        Query::AnyRune => e.rune.is_some(),
        Query::IdleTriggerStar => e.star_trigger.is_some() && e.rune_effect.is_none()
            && !e.rune_slot && e.rune.is_none(),
        Query::EffectCarrier => e.rune_effect.is_some() && e.star_trigger.is_none() && !e.rune_slot
            && e.rune.is_none(),
        Query::TriggerStar => e.star_trigger.is_some(),
        Query::ActivatableSlot => e.rune_slot && e.parent.is_some() && e.rune.is_none()
            && !e.donut_circle,
        Query::ChildRune(slot) => e.rune.is_some() && !e.donut_circle && match e.parent {
            Some(p) => p == slot,
            None => false,
        },
        Query::RuneWithTarget => e.rune.is_some() && match e.rune {
            Some(rd) => rd.affected_entity.is_some(),
            None => false,
        },
        Query::ChildSlot(part) => e.rune_slot && match e.parent {
            Some(p) => p == part,
            None => false,
        },
    }
}

/// `m` is the only entity matching `q`.
pub open spec fn sole_match(s: Seq<Entity>, q: Query, m: int) -> bool {
    &&& 0 <= m < s.len()
    &&& query_matches(q, s[m])
    &&& forall|j: int| 0 <= j < s.len() && j != m ==> !query_matches(q, s[j])
}

/// Exactly one entity matches `q`.
pub open spec fn has_sole_match(s: Seq<Entity>, q: Query) -> bool {
    exists|m: int| sole_match(s, q, m)
}

/// The first index at or after `i` whose entity matches `q`.
pub open spec fn first_match_from(s: Seq<Entity>, q: Query, i: int) -> Option<int>
    recommends
        0 <= i <= s.len(),
    decreases s.len() - i,
    when 0 <= i <= s.len()
{
    if i >= s.len() {
        None
    } else if query_matches(q, s[i]) {
        Some(i)
    } else {
        first_match_from(s, q, i + 1)
    }
}

/// The first index whose entity matches `q`.
pub open spec fn first_match(s: Seq<Entity>, q: Query) -> Option<int> {
    first_match_from(s, q, 0)
}

/// What `first_match_from` finds matches, nothing before it matches, and
/// `None` means nothing matches at all.
pub proof fn lemma_first_match_from(s: Seq<Entity>, q: Query, i: int)
    requires
        0 <= i <= s.len(),
    ensures
        first_match_from(s, q, i) matches Some(m) ==> i <= m < s.len() && query_matches(q, s[m])
            && forall|j: int| i <= j < m ==> !query_matches(q, s[j]),
        first_match_from(s, q, i) is None ==> forall|j: int|
            i <= j < s.len() ==> !query_matches(q, s[j]),
    decreases s.len() - i,
{
    if i < s.len() && !query_matches(q, s[i]) {
        lemma_first_match_from(s, q, i + 1);
    }
}

/// Finds the only entity matching `q`, or reports that there is no such
/// single entity.
pub fn find_sole(v: &Vec<Entity>, q: Query) -> (r: Option<usize>)
    ensures
        (r matches Some(m) ==> sole_match(v@, q, m as int)),
        (r is None ==> !has_sole_match(v@, q)),
{
    let n = v.len();
    let mut found: Option<usize> = None;
    let mut i: usize = 0;
    while i < n
        invariant
            0 <= i <= n,
            n == v@.len(),
            (found matches Some(m) ==> m < i && query_matches(q, v@[m as int]) && forall|j: int|
                0 <= j < i && j != m ==> !query_matches(q, v@[j])),
            (found is None ==> forall|j: int| 0 <= j < i ==> !query_matches(q, v@[j])),
        decreases n - i,
    {
        if entity_matches(q, &v[i]) {
            match found {
                Some(m) => {
                    proof {
                        assert forall|m2: int| !sole_match(v@, q, m2) by {
                            if sole_match(v@, q, m2) {
                                if m2 != m {
                                    assert(!query_matches(q, v@[m as int]));
                                } else {
                                    assert(!query_matches(q, v@[i as int]));
                                }
                            }
                        }
                    }
                    return None;
                },
                None => {
                    found = Some(i);
                },
            }
        }
        i = i + 1;
    }
    proof {
        if found is None {
            assert forall|m2: int| !sole_match(v@, q, m2) by {
                if 0 <= m2 < v@.len() {
                    assert(!query_matches(q, v@[m2]));
                }
            }
        }
    }
    found
}

/// Finds the first entity matching `q`, in spawn order.
pub fn find_first(v: &Vec<Entity>, q: Query) -> (r: Option<usize>)
    ensures
        (r matches Some(m) ==> first_match(v@, q) == Some(m as int)),
        (r is None ==> first_match(v@, q) is None),
{
    let n = v.len();
    let mut i: usize = 0;
    while i < n
        invariant
            0 <= i <= n,
            n == v@.len(),
            first_match(v@, q) == first_match_from(v@, q, i as int),
        decreases n - i,
    {
        if entity_matches(q, &v[i]) {
            return Some(i);
        }
        i = i + 1;
    }
    None
}

} // verus!
