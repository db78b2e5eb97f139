//! Seed cards: cooldown, usability, and picking one up.

use vstd::prelude::*;
use crate::plant::{seed_usable, usable_now, PlantCooldown, PlantUsable, SeedHover};
use crate::planting::Sunshine;
use crate::solt::Entity;

verus! {

/// A seed card on the seed bank.
#[derive(Clone, Copy, Debug, PartialEq, Eq, Structural)]
pub struct SeedCard {
    pub entity: Entity,
    /// Cost of the species in sunshine.
    pub sunshine: u32,
    pub cooldown: PlantCooldown,
    pub usable: PlantUsable,
    pub hover: SeedHover,
}

/// The seed that follows the pointer: the marker's own handle and the card
/// it was taken from.
#[derive(Clone, Copy, Debug, PartialEq, Eq, Structural)]
pub struct PickSeed {
    pub entity: Entity,
    pub seed: Entity,
}

/// What a click on the seed bank did.
#[derive(Clone, Copy, Debug, PartialEq, Eq, Structural)]
pub enum PickOutcome {
    /// No click, or no card under the pointer. The click stays unconsumed.
    Ignored,
    /// The card of the carried seed was clicked again: the carried seed, whose
    /// handle this is, is dropped.
    Cancelled(Entity),
    /// The card cannot be used now: nothing changes and the buzzer sounds.
    Rejected,
    /// The card at index `seed` was picked up; a seed carried before is
    /// dropped.
    Picked { seed: usize, dropped: Option<Entity> },
}

/// Whether `i` is the first card under the pointer.
pub open spec fn is_first_hovered(seeds: Seq<SeedCard>, i: int) -> bool {
    &&& 0 <= i < seeds.len()
    &&& seeds[i].hover == SeedHover::Hover
    &&& forall|j: int| 0 <= j < i ==> (#[trigger] seeds[j]).hover != SeedHover::Hover
}

/// Whether no card is under the pointer.
pub open spec fn none_hovered(seeds: Seq<SeedCard>) -> bool {
    forall|j: int| 0 <= j < seeds.len() ==> (#[trigger] seeds[j]).hover != SeedHover::Hover
}

/// Whether a card can be picked up: affordable, cooled down and marked usable.
pub open spec fn can_pick(card: SeedCard, sunshine: u32) -> bool {
    sunshine >= card.sunshine && card.cooldown == PlantCooldown::Ready && card.usable
        == PlantUsable::Usable
}

/// What a click on the card at index `i` does while `carried` follows the
/// pointer, and what follows the pointer afterwards.
pub open spec fn pick_result(
    seeds: Seq<SeedCard>,
    i: int,
    carried: Option<PickSeed>,
    sunshine: u32,
    carrier: Entity,
) -> (PickOutcome, Option<PickSeed>) {
    if carried.is_some() && carried.unwrap().seed == seeds[i].entity {
        (PickOutcome::Cancelled(carried.unwrap().entity), None)
    } else if can_pick(seeds[i], sunshine) {
        (
            PickOutcome::Picked {
                seed: i as usize,
                dropped: match carried {
                    Some(c) => Some(c.entity),
                    None => None,
                },
            },
            Some(PickSeed { entity: carrier, seed: seeds[i].entity }),
        )
    } else {
        (PickOutcome::Rejected, carried)
    }
}

/// The first card under the pointer.
pub fn hovered_seed(seeds: &Vec<SeedCard>) -> (r: Option<usize>)
    ensures
        match r {
            Some(i) => is_first_hovered(seeds@, i as int),
            None => none_hovered(seeds@),
        },
{
    let mut i: usize = 0;
    while i < seeds.len()
        invariant
            i <= seeds.len(),
            forall|j: int| 0 <= j < i ==> (#[trigger] seeds[j]).hover != SeedHover::Hover,
        decreases seeds.len() - i,
    {
        if seeds[i].hover == SeedHover::Hover {
            return Some(i);
        }
        i += 1;
    }
    None
}

/// Handles a left click on the seed bank. A click on a usable card picks it
/// up under the handle `carrier` and drops a seed carried before; a click on
/// the card of the carried seed drops that seed; a click on a card that
/// cannot be used changes nothing.
pub fn input_pick_seed(
    left_click: bool,
    seeds: &Vec<SeedCard>,
    carried: &mut Option<PickSeed>,
    sunshine: &Sunshine,
    carrier: Entity,
) -> (r: PickOutcome)
    ensures
        !left_click || none_hovered(seeds@) ==> r == PickOutcome::Ignored && *final(carried)
            == *old(carried),
        left_click ==> forall|i: int|
            is_first_hovered(seeds@, i) ==> (r, *final(carried)) == pick_result(
                seeds@,
                i,
                *old(carried),
                sunshine.0,
                carrier,
            ),
{
    if !left_click {
        return PickOutcome::Ignored;
    }
    let hovered = hovered_seed(seeds);
    match hovered {
        None => PickOutcome::Ignored,
        Some(i) => {
            assert forall|k: int| is_first_hovered(seeds@, k) implies k == i as int by {
                if k < i as int {
                    assert(seeds[k].hover != SeedHover::Hover);
                } else if k > i as int {
                    assert(seeds[i as int].hover != SeedHover::Hover);
                }
            }
            let card = seeds[i];
            let same = match *carried {
                Some(c) => c.seed == card.entity,
                None => false,
            };
            if same {
                let dropped = match *carried {
                    Some(c) => c.entity,
                    None => carrier,
                };
                *carried = None;
                PickOutcome::Cancelled(dropped)
            } else {
                let ready = match card.cooldown {
                    PlantCooldown::Ready => true,
                    PlantCooldown::Cooldown(_) => false,
                };
                let marked = match card.usable {
                    PlantUsable::Usable => true,
                    PlantUsable::Unusable => false,
                };
                if sunshine.0 >= card.sunshine && ready && marked {
                    let dropped = match *carried {
                        Some(c) => Some(c.entity),
                        None => None,
                    };
                    *carried = Some(PickSeed { entity: carrier, seed: card.entity });
                    PickOutcome::Picked { seed: i, dropped }
                } else {
                    PickOutcome::Rejected
                }
            }
        },
    }
}

/// Handles a right click: drops the carried seed and returns its handle.
pub fn cancel_pick_seed(right_click: bool, carried: &mut Option<PickSeed>) -> (r: Option<Entity>)
    ensures
        right_click ==> final(carried).is_none() && r == match *old(carried) {
            Some(c) => Some(c.entity),
            None => None,
        },
        !right_click ==> r.is_none() && *final(carried) == *old(carried),
{
    if !right_click {
        return None;
    }
    let dropped = match *carried {
        Some(c) => Some(c.entity),
        None => None,
    };
    *carried = None;
    dropped
}

/// Recomputes the usability of every seed card: usable iff the pool covers
/// the cost and the card has cooled down.
pub fn check_plant_seed_usable(sunshine: &Sunshine, seeds: &mut Vec<SeedCard>)
    ensures
        final(seeds)@.len() == old(seeds)@.len(),
        forall|i: int|
            0 <= i < old(seeds)@.len() ==> (#[trigger] final(seeds)@[i]) == (SeedCard {
                usable: seed_usable(sunshine.0, old(seeds)@[i].sunshine, old(seeds)@[i].cooldown),
                ..old(seeds)@[i]
            }),
{
    let mut i: usize = 0;
    while i < seeds.len()
        invariant
            i <= seeds.len(),
            seeds@.len() == old(seeds)@.len(),
            forall|j: int|
                0 <= j < i ==> (#[trigger] seeds@[j]) == (SeedCard {
                    usable: seed_usable(
                        sunshine.0,
                        old(seeds)@[j].sunshine,
                        old(seeds)@[j].cooldown,
                    ),
                    ..old(seeds)@[j]
                }),
            forall|j: int| i <= j < seeds@.len() ==> (#[trigger] seeds@[j]) == old(seeds)@[j],
        decreases seeds.len() - i,
    {
        let mut card = seeds[i];
        card.usable = usable_now(sunshine.0, card.sunshine, card.cooldown);
        seeds[i] = card;
        i += 1;
    }
}

/// Counts the cooldown of every seed card down by `delta` nanoseconds.
pub fn update_seed_cooldown(delta: u64, seeds: &mut Vec<SeedCard>)
    ensures
        final(seeds)@.len() == old(seeds)@.len(),
        forall|i: int|
            0 <= i < old(seeds)@.len() ==> (#[trigger] final(seeds)@[i]) == (SeedCard {
                cooldown: old(seeds)@[i].cooldown.after(delta),
                ..old(seeds)@[i]
            }),
{
    let mut i: usize = 0;
    while i < seeds.len()
        invariant
            i <= seeds.len(),
            seeds@.len() == old(seeds)@.len(),
            forall|j: int|
                0 <= j < i ==> (#[trigger] seeds@[j]) == (SeedCard {
                    cooldown: old(seeds)@[j].cooldown.after(delta),
                    ..old(seeds)@[j]
                }),
            forall|j: int| i <= j < seeds@.len() ==> (#[trigger] seeds@[j]) == old(seeds)@[j],
        decreases seeds.len() - i,
    {
        let mut card = seeds[i];
        card.cooldown.tick(delta);
        seeds[i] = card;
        i += 1;
    }
}

/// The cards with the cooldown of every card of handle `seed` started anew.
pub open spec fn restarted(seeds: Seq<SeedCard>, seed: Entity, cooldown: u64) -> Seq<SeedCard> {
    Seq::new(
        seeds.len(),
        |i: int|
            if seeds[i].entity == seed {
                SeedCard { cooldown: PlantCooldown::Cooldown(cooldown), ..seeds[i] }
            } else {
                seeds[i]
            },
    )
}

/// Starts the reuse cooldown of the card with handle `seed`.
pub fn restart_seed(seeds: &mut Vec<SeedCard>, seed: Entity, cooldown: u64)
    ensures
        final(seeds)@ == restarted(old(seeds)@, seed, cooldown),
{
    let mut i: usize = 0;
    while i < seeds.len()
        invariant
            i <= seeds.len(),
            seeds@.len() == old(seeds)@.len(),
            forall|j: int| 0 <= j < i ==> (#[trigger] seeds@[j]) == restarted(old(seeds)@, seed, cooldown)[j],
            forall|j: int| i <= j < seeds@.len() ==> (#[trigger] seeds@[j]) == old(seeds)@[j],
        decreases seeds.len() - i,
    {
        if seeds[i].entity == seed {
            let mut card = seeds[i];
            card.cooldown = PlantCooldown::Cooldown(cooldown);
            seeds[i] = card;
        }
        i += 1;
    }
    assert(seeds@ =~= restarted(old(seeds)@, seed, cooldown));
}

} // verus!
