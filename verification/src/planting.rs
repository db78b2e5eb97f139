//! Planting: which slot a click means, whether the carried seed may go
//! there, and what planting changes.

use vstd::prelude::*;
use crate::fixed::{add_clamped, clamp_i32};
use crate::geom::Vec2;
use crate::instant::PlantInstantTag;
use crate::plant::{PlantHp, PlantInfo, PlantOn, PlantType};
use crate::produce::{produce_cooldown, rearmed, PlantProduceTag};
use crate::rng::random_in;
use crate::seed::{restart_seed, restarted, PickSeed, SeedCard};
use crate::shoot::{LanePosition, ProjectileCooldown, PlantShootTag};
use crate::solt::{Entity, PlantSolt, SoltType};

verus! {

/// Square of the radius within which a click picks a slot or a pickup.
pub const PICK_RADIUS_SQUARED: u128 = 3_025_000_000;

/// The spendable resource.
#[derive(Clone, Copy, Debug, PartialEq, Eq, Structural)]
pub struct Sunshine(pub u32);

impl Default for Sunshine {
    /// An empty pool.
    fn default() -> (r: Sunshine)
        ensures
            r == Sunshine(0),
    {
        Sunshine(0)
    }
}

/// Why a seed was not planted.
#[derive(Clone, Copy, Debug, PartialEq, Eq, Structural)]
pub enum PlantRefusal {
    /// The species may not stand on what the slot offers.
    Terrain,
    /// The role that the species takes is held already.
    Occupied,
    /// The pool does not cover the cost.
    Sunshine,
}

/// A slot with its place on the field.
#[derive(Clone, Copy, Debug, PartialEq, Eq, Structural)]
pub struct SoltSite {
    pub entity: Entity,
    pub solt: PlantSolt,
    pub position: Vec2,
    pub lane: u8,
}

/// A defender on the field: its handle, its slot and its species.
#[derive(Clone, Copy, Debug, PartialEq, Eq, Structural)]
pub struct PlantTag {
    pub entity: Entity,
    pub solt: Entity,
    pub plant_type: PlantType,
}

/// Whether a species may be planted on a slot. A grave decides before a
/// crater, a crater before the pot, and the pot before the terrain; a pot of a
/// species that carries nothing admits no one.
pub open spec fn can_plant_on(plant_on: PlantOn, solt: PlantSolt, pot_plant: Option<PlantType>) -> bool {
    if solt.grave.is_some() {
        plant_on.grave
    } else if solt.hole.is_some() {
        plant_on.hole
    } else {
        match pot_plant {
            Some(PlantType::LilyPad) => plant_on.lily,
            Some(PlantType::FlowerPot) => plant_on.pot,
            Some(_) => false,
            None => match solt.solt_type {
                SoltType::Dirt => plant_on.dirt,
                SoltType::River => plant_on.river,
                SoltType::Roof => plant_on.roof,
            },
        }
    }
}

/// The first check that a planting attempt fails, in the order terrain, role,
/// cost; `None` where it passes all three.
pub open spec fn planting_verdict(
    solt: PlantSolt,
    plant_info: PlantInfo,
    pot_plant: Option<PlantType>,
    sunshine: u32,
) -> Option<PlantRefusal> {
    if !can_plant_on(plant_info.plant_on, solt, pot_plant) {
        Some(PlantRefusal::Terrain)
    } else if solt.role(plant_info.position).is_some() {
        Some(PlantRefusal::Occupied)
    } else if sunshine < plant_info.sunshine {
        Some(PlantRefusal::Sunshine)
    } else {
        None
    }
}

/// Whether a species may be planted on a slot whose pot holds `pot_plant`.
pub fn check_plant_on(plant_on: &PlantOn, solt: &PlantSolt, pot_plant: Option<PlantType>) -> (r: bool)
    ensures
        r == can_plant_on(*plant_on, *solt, pot_plant),
{
    if solt.grave.is_some() {
        plant_on.grave
    } else if solt.hole.is_some() {
        plant_on.hole
    } else {
        match pot_plant {
            Some(PlantType::LilyPad) => plant_on.lily,
            Some(PlantType::FlowerPot) => plant_on.pot,
            Some(_) => false,
            None => match solt.solt_type {
                SoltType::Dirt => plant_on.dirt,
                SoltType::River => plant_on.river,
                SoltType::Roof => plant_on.roof,
            },
        }
    }
}

/// Judges a planting attempt without changing anything.
pub fn check_planting(
    solt: &PlantSolt,
    plant_info: &PlantInfo,
    pot_plant: Option<PlantType>,
    sunshine: u32,
) -> (r: Option<PlantRefusal>)
    ensures
        r == planting_verdict(*solt, *plant_info, pot_plant, sunshine),
{
    if !check_plant_on(&plant_info.plant_on, solt, pot_plant) {
        Some(PlantRefusal::Terrain)
    } else if solt.get(plant_info.position).is_some() {
        Some(PlantRefusal::Occupied)
    } else if sunshine < plant_info.sunshine {
        Some(PlantRefusal::Sunshine)
    } else {
        None
    }
}

/// Plants `plant_entity` on a slot, or changes nothing. On success the role
/// of the species holds the new defender and the pool has paid the cost.
pub fn plant_on_solt(
    solt: &mut PlantSolt,
    plant_info: &PlantInfo,
    pot_plant: Option<PlantType>,
    sunshine: &mut Sunshine,
    plant_entity: Entity,
) -> (r: Result<(), PlantRefusal>)
    ensures
        match planting_verdict(*old(solt), *plant_info, pot_plant, old(sunshine).0) {
            Some(refusal) => r == Err::<(), PlantRefusal>(refusal) && *final(solt) == *old(solt)
                && *final(sunshine) == *old(sunshine),
            None => r.is_ok() && *final(solt) == old(solt).with_role(
                plant_info.position,
                Some(plant_entity),
            ) && final(sunshine).0 == old(sunshine).0 - plant_info.sunshine,
        },
{
    match check_planting(solt, plant_info, pot_plant, sunshine.0) {
        Some(refusal) => Err(refusal),
        None => {
            solt.set(plant_info.position, Some(plant_entity));
            sunshine.0 = sunshine.0 - plant_info.sunshine;
            Ok(())
        },
    }
}

/// The first defender listed under `entity`.
pub open spec fn tag_in(plants: Seq<PlantTag>, entity: Entity) -> Option<PlantTag>
    decreases plants.len(),
{
    if plants.len() == 0 {
        None
    } else if plants[0].entity == entity {
        Some(plants[0])
    } else {
        tag_in(plants.subrange(1, plants.len() as int), entity)
    }
}

/// The species of the first defender listed under `entity`.
pub open spec fn species_in(plants: Seq<PlantTag>, entity: Entity) -> Option<PlantType> {
    match tag_in(plants, entity) {
        Some(tag) => Some(tag.plant_type),
        None => None,
    }
}

/// The species of the pot occupant of a slot, where it has one that is a
/// known defender.
pub open spec fn pot_species(plants: Seq<PlantTag>, solt: PlantSolt) -> Option<PlantType> {
    match solt.pot {
        Some(entity) => species_in(plants, entity),
        None => None,
    }
}

/// Looks up a defender by its handle.
pub fn find_tag(plants: &Vec<PlantTag>, entity: Entity) -> (r: Option<PlantTag>)
    ensures
        r == tag_in(plants@, entity),
{
    let mut i: usize = 0;
    assert(plants@.subrange(0, plants.len() as int) =~= plants@);
    while i < plants.len()
        invariant
            i <= plants.len(),
            tag_in(plants@, entity) == tag_in(plants@.subrange(i as int, plants.len() as int), entity),
        decreases plants.len() - i,
    {
        if plants[i].entity == entity {
            return Some(plants[i]);
        }
        proof {
            let rest = plants@.subrange(i as int, plants.len() as int);
            assert(rest.subrange(1, rest.len() as int) =~= plants@.subrange(
                i as int + 1,
                plants.len() as int,
            ));
        }
        i += 1;
    }
    None
}

/// Looks up the species of a defender; `None` where no defender has the handle.
pub fn species_of(plants: &Vec<PlantTag>, entity: Entity) -> (r: Option<PlantType>)
    ensures
        r == species_in(plants@, entity),
{
    match find_tag(plants, entity) {
        Some(tag) => Some(tag.plant_type),
        None => None,
    }
}

/// Whether a click at `cursor` reaches a place.
pub open spec fn in_reach(position: Vec2, cursor: Vec2) -> bool {
    crate::geom::dist2(position, cursor) <= PICK_RADIUS_SQUARED as int
}

/// Whether `i` is the slot that a click at `cursor` means: within reach, no
/// slot nearer, and the first of those equally near.
pub open spec fn is_picked(solts: Seq<SoltSite>, cursor: Vec2, i: int) -> bool {
    &&& 0 <= i < solts.len()
    &&& in_reach(solts[i].position, cursor)
    &&& forall|j: int|
        0 <= j < solts.len() ==> crate::geom::dist2(solts[i].position, cursor)
            <= #[trigger] crate::geom::dist2(solts[j].position, cursor)
    &&& forall|j: int|
        0 <= j < i ==> crate::geom::dist2(solts[i].position, cursor)
            < #[trigger] crate::geom::dist2(solts[j].position, cursor)
}

/// The slot that a click at `cursor` means, if any slot is within reach.
pub fn pick_solt(solts: &Vec<SoltSite>, cursor: Vec2) -> (r: Option<usize>)
    ensures
        match r {
            Some(i) => is_picked(solts@, cursor, i as int),
            None => forall|j: int| 0 <= j < solts.len() ==> !in_reach(#[trigger] solts[j].position, cursor),
        },
{
    if solts.len() == 0 {
        return None;
    }
    let mut best: usize = 0;
    let mut best_distance: u128 = solts[0].position.distance_squared(cursor);
    let mut i: usize = 1;
    while i < solts.len()
        invariant
            1 <= i <= solts.len(),
            best < i,
            best_distance == crate::geom::dist2(solts[best as int].position, cursor),
            forall|j: int|
                0 <= j < i ==> best_distance <= #[trigger] crate::geom::dist2(
                    solts[j].position,
                    cursor,
                ),
            forall|j: int|
                0 <= j < best ==> best_distance < #[trigger] crate::geom::dist2(
                    solts[j].position,
                    cursor,
                ),
        decreases solts.len() - i,
    {
        let distance: u128 = solts[i].position.distance_squared(cursor);
        if distance < best_distance {
            best = i;
            best_distance = distance;
        }
        i += 1;
    }
    if best_distance <= PICK_RADIUS_SQUARED {
        Some(best)
    } else {
        None
    }
}

/// A slot is picked by at most one index.
pub proof fn lemma_picked_unique(solts: Seq<SoltSite>, cursor: Vec2, i: int, k: int)
    requires
        is_picked(solts, cursor, i),
        is_picked(solts, cursor, k),
    ensures
        i == k,
{
    if i < k {
        assert(crate::geom::dist2(solts[k].position, cursor) < crate::geom::dist2(
            solts[i].position,
            cursor,
        ));
        assert(crate::geom::dist2(solts[i].position, cursor) <= crate::geom::dist2(
            solts[k].position,
            cursor,
        ));
    } else if k < i {
        assert(crate::geom::dist2(solts[i].position, cursor) < crate::geom::dist2(
            solts[k].position,
            cursor,
        ));
        assert(crate::geom::dist2(solts[k].position, cursor) <= crate::geom::dist2(
            solts[i].position,
            cursor,
        ));
    }
}

/// How far below the centre of its slot a defender stands.
pub const PLANT_DROP: i64 = -15_000;

/// A defender that planting has brought about, with the state attached to it.
#[derive(Debug)]
pub struct NewPlant {
    pub entity: Entity,
    /// Handle of the slot it stands on.
    pub solt: Entity,
    pub plant_type: PlantType,
    pub position: Vec2,
    pub lane_position: LanePosition,
    pub hp: PlantHp,
    /// Reload state, for a species with a weapon. It starts unloaded and on
    /// standby.
    pub shoot: Option<(ProjectileCooldown, PlantShootTag)>,
    /// Production state, for a species that produces.
    pub produce: Option<PlantProduceTag>,
    /// Timers, for a species of instant use.
    pub instant: Option<PlantInstantTag>,
    /// Whether invaders cannot hurt it.
    pub invincible: bool,
    /// Whether it changes its look as it is eaten.
    pub hp_anim: bool,
}

impl NewPlant {
    /// Whether this is the defender that planting `plant_info` on `site`
    /// brings about, given the draw for its first production interval.
    pub open spec fn planted_from(
        &self,
        plant_info: PlantInfo,
        site: SoltSite,
        plant_entity: Entity,
        jitter: u64,
    ) -> bool {
        &&& self.entity == plant_entity
        &&& self.solt == site.entity
        &&& self.plant_type == plant_info.id
        &&& self.position == (Vec2 {
            x: site.position.x,
            y: clamp_i32(site.position.y as int + PLANT_DROP as int),
        })
        &&& self.lane_position == (LanePosition { lane: site.lane, x: site.position.x })
        &&& self.hp == PlantHp(plant_info.hp as i64)
        &&& match plant_info.shoot {
            Some(shoot) => self.shoot == Some(
                (
                    ProjectileCooldown {
                        cooldown: shoot.shoot_cooldown,
                        max_cooldown: shoot.shoot_cooldown,
                    },
                    PlantShootTag::Standby,
                ),
            ),
            None => self.shoot.is_none(),
        }
        &&& match plant_info.produce {
            Some(produce) => self.produce == Some(
                PlantProduceTag {
                    cooldown: rearmed(produce.cooldown, produce.cooldown_spread, jitter),
                    elapsed: 0,
                },
            ),
            None => self.produce.is_none(),
        }
        &&& match plant_info.instant {
            Some(instant) => self.instant.is_some() && self.instant.unwrap().fresh_for(instant)
                && self.invincible == instant.invincible,
            None => self.instant.is_none() && !self.invincible,
        }
        &&& self.hp_anim == plant_info.damage_skin
    }
}

/// The state of a freshly planted defender.
pub fn new_plant(plant_info: &PlantInfo, site: &SoltSite, plant_entity: Entity, jitter: u64) -> (r:
    NewPlant)
    ensures
        r.planted_from(*plant_info, *site, plant_entity, jitter),
{
    let shoot = match &plant_info.shoot {
        Some(shoot) => Some(
            (
                ProjectileCooldown {
                    cooldown: shoot.shoot_cooldown,
                    max_cooldown: shoot.shoot_cooldown,
                },
                PlantShootTag::Standby,
            ),
        ),
        None => None,
    };
    let produce = match &plant_info.produce {
        Some(produce) => Some(
            PlantProduceTag { cooldown: produce_cooldown(produce, jitter), elapsed: 0 },
        ),
        None => None,
    };
    let (instant, invincible) = match &plant_info.instant {
        Some(instant) => (Some(PlantInstantTag::new(instant)), instant.invincible),
        None => (None, false),
    };
    NewPlant {
        entity: plant_entity,
        solt: site.entity,
        plant_type: plant_info.id,
        position: Vec2 { x: site.position.x, y: add_clamped(site.position.y, PLANT_DROP) },
        lane_position: LanePosition { lane: site.lane, x: site.position.x },
        hp: PlantHp(plant_info.hp as i64),
        shoot,
        produce,
        instant,
        invincible,
        hp_anim: plant_info.damage_skin,
    }
}

/// What a click on the field did.
#[derive(Debug)]
pub enum PlantSeedOutcome {
    /// No click, no carried seed, or no slot within reach: the click stays
    /// unconsumed.
    Ignored,
    /// The click met the slot at this index and was consumed, but a check
    /// failed: nothing has changed.
    Refused(usize, PlantRefusal),
    /// The seed was planted on the slot at this index. The carried seed,
    /// whose handle is `carrier`, is to go.
    Planted { solt: usize, carrier: Entity, plant: NewPlant },
}

/// Whether a click is taken up at all: there is a click, a carried seed and
/// a slot within reach.
pub open spec fn click_on_field(left_click: bool, carried: Option<PickSeed>, solts: Seq<SoltSite>, cursor: Vec2) -> bool {
    left_click && carried.is_some() && exists|i: int| is_picked(solts, cursor, i)
}

/// The slots after planting `plant_entity` on the slot at index `i`.
pub open spec fn solts_planted(
    solts: Seq<SoltSite>,
    i: int,
    plant_info: PlantInfo,
    plant_entity: Entity,
) -> Seq<SoltSite> {
    solts.update(
        i,
        SoltSite {
            solt: solts[i].solt.with_role(plant_info.position, Some(plant_entity)),
            ..solts[i]
        },
    )
}

/// Handles a left click on the field while a seed of species `plant_info` is
/// carried, with `jitter` as the draw for the first production interval.
///
/// The click means the slot nearest to the pointer within reach. The attempt
/// passes, in this order, the check of the terrain against the species, of
/// the role of the species being free, and of the pool covering the cost. If
/// one fails nothing changes. Else the slot takes the new defender, the pool
/// pays exactly the cost, the carried seed is dropped and its card starts to
/// cool down.
pub fn plant_seed_with(
    left_click: bool,
    carried: &mut Option<PickSeed>,
    plant_info: &PlantInfo,
    solts: &mut Vec<SoltSite>,
    cursor: Vec2,
    plants: &Vec<PlantTag>,
    seeds: &mut Vec<SeedCard>,
    sunshine: &mut Sunshine,
    plant_entity: Entity,
    jitter: u64,
) -> (r: PlantSeedOutcome)
    ensures
        !click_on_field(left_click, *old(carried), old(solts)@, cursor) ==> r is Ignored,
        click_on_field(left_click, *old(carried), old(solts)@, cursor) ==> forall|i: int|
            is_picked(old(solts)@, cursor, i) ==> match planting_verdict(
                old(solts)@[i].solt,
                *plant_info,
                pot_species(plants@, old(solts)@[i].solt),
                old(sunshine).0,
            ) {
                Some(refusal) => r matches PlantSeedOutcome::Refused(at, why) && at == i && why
                    == refusal,
                None => {
                    &&& r matches PlantSeedOutcome::Planted { solt, carrier, plant }
                    &&& solt == i
                    &&& carrier == old(carried).unwrap().entity
                    &&& plant.planted_from(*plant_info, old(solts)@[i], plant_entity, jitter)
                    &&& final(carried).is_none()
                    &&& final(solts)@ == solts_planted(old(solts)@, i, *plant_info, plant_entity)
                    &&& final(sunshine).0 == old(sunshine).0 - plant_info.sunshine
                    &&& final(seeds)@ == restarted(
                        old(seeds)@,
                        old(carried).unwrap().seed,
                        plant_info.cooldown,
                    )
                },
            },
        !(r is Planted) ==> *final(carried) == *old(carried) && final(solts)@ == old(solts)@
            && *final(sunshine) == *old(sunshine) && final(seeds)@ == old(seeds)@,
{
    if !left_click {
        return PlantSeedOutcome::Ignored;
    }
    let pick = match *carried {
        Some(pick) => pick,
        None => {
            return PlantSeedOutcome::Ignored;
        },
    };
    let i = match pick_solt(solts, cursor) {
        Some(i) => i,
        None => {
            assert forall|k: int| !is_picked(solts@, cursor, k) by {
                if 0 <= k < solts@.len() {
                    assert(!in_reach(solts[k].position, cursor));
                }
            }
            return PlantSeedOutcome::Ignored;
        },
    };
    assert forall|k: int| is_picked(solts@, cursor, k) implies k == i as int by {
        lemma_picked_unique(solts@, cursor, i as int, k);
    }
    let mut site = solts[i];
    let pot_plant = match site.solt.pot {
        Some(entity) => species_of(plants, entity),
        None => None,
    };
    match plant_on_solt(&mut site.solt, plant_info, pot_plant, sunshine, plant_entity) {
        Err(refusal) => PlantSeedOutcome::Refused(i, refusal),
        Ok(()) => {
            let plant = new_plant(plant_info, &solts[i], plant_entity, jitter);
            solts[i] = site;
            *carried = None;
            restart_seed(seeds, pick.seed, plant_info.cooldown);
            assert(solts@ =~= solts_planted(old(solts)@, i as int, *plant_info, plant_entity));
            PlantSeedOutcome::Planted { solt: i, carrier: pick.entity, plant }
        },
    }
}

/// Handles a left click on the field while a seed of species `plant_info` is
/// carried. The first production interval of a producer is the base interval
/// moved by a random draw from its spread; the rest is as
/// [`plant_seed_with`] says for that draw.
pub fn plant_seed(
    left_click: bool,
    carried: &mut Option<PickSeed>,
    plant_info: &PlantInfo,
    solts: &mut Vec<SoltSite>,
    cursor: Vec2,
    plants: &Vec<PlantTag>,
    seeds: &mut Vec<SeedCard>,
    sunshine: &mut Sunshine,
    plant_entity: Entity,
) -> (r: PlantSeedOutcome)
    ensures
        !click_on_field(left_click, *old(carried), old(solts)@, cursor) ==> r is Ignored,
        click_on_field(left_click, *old(carried), old(solts)@, cursor) ==> forall|i: int|
            is_picked(old(solts)@, cursor, i) ==> match planting_verdict(
                old(solts)@[i].solt,
                *plant_info,
                pot_species(plants@, old(solts)@[i].solt),
                old(sunshine).0,
            ) {
                Some(refusal) => r matches PlantSeedOutcome::Refused(at, why) && at == i && why
                    == refusal,
                None => {
                    &&& r matches PlantSeedOutcome::Planted { solt, carrier, plant }
                    &&& solt == i
                    &&& carrier == old(carried).unwrap().entity
                    &&& exists|jitter: u64|
                        jitter_of(*plant_info, jitter) && #[trigger] plant.planted_from(
                            *plant_info,
                            old(solts)@[i],
                            plant_entity,
                            jitter,
                        )
                    &&& final(carried).is_none()
                    &&& final(solts)@ == solts_planted(old(solts)@, i, *plant_info, plant_entity)
                    &&& final(sunshine).0 == old(sunshine).0 - plant_info.sunshine
                    &&& final(seeds)@ == restarted(
                        old(seeds)@,
                        old(carried).unwrap().seed,
                        plant_info.cooldown,
                    )
                },
            },
        !(r is Planted) ==> *final(carried) == *old(carried) && final(solts)@ == old(solts)@
            && *final(sunshine) == *old(sunshine) && final(seeds)@ == old(seeds)@,
{
    let jitter: u64 = match &plant_info.produce {
        Some(produce) => random_in(0, produce.cooldown_spread),
        None => 0,
    };
    plant_seed_with(
        left_click,
        carried,
        plant_info,
        solts,
        cursor,
        plants,
        seeds,
        sunshine,
        plant_entity,
        jitter,
    )
}

/// Whether `jitter` can be the draw for the first production interval of a
/// species: below the spread of a producer that has one, else zero.
pub open spec fn jitter_of(plant_info: PlantInfo, jitter: u64) -> bool {
    match plant_info.produce {
        Some(produce) => if produce.cooldown_spread > 0 {
            jitter < produce.cooldown_spread
        } else {
            jitter == 0
        },
        None => jitter == 0,
    }
}

} // verus!
