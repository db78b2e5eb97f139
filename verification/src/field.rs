//! The playfield: which lanes a level has, and where their slots, entry
//! places and mowers lie.

use vstd::prelude::*;
use crate::geom::Vec2;
use crate::level::{LevelBackground, SodType};
use crate::planting::SoltSite;
use crate::shoot::LanePosition;
use crate::solt::{Entity, PlantSolt, SoltType};

verus! {

/// Slots along a lane.
pub const SOLTS_PER_LANE: usize = 9;

/// A lane of the field.
#[derive(Clone, Copy, Debug, PartialEq, Eq, Structural)]
pub struct Lane {
    pub lane: u8,
    pub solt_type: SoltType,
}

/// A planting slot yet without a handle.
#[derive(Clone, Copy, Debug, PartialEq, Eq, Structural)]
pub struct SoltPlace {
    pub solt: PlantSolt,
    pub position: Vec2,
    pub lane: u8,
}

/// A place where invaders enter, yet without a handle.
#[derive(Clone, Copy, Debug, PartialEq, Eq, Structural)]
pub struct ZombieSoltPlace {
    pub solt_type: SoltType,
    pub position: Vec2,
    pub lane: u8,
}

/// A mower at the head of a lane.
#[derive(Clone, Copy, Debug, PartialEq, Eq, Structural)]
pub struct CleanerCar {
    pub lane: u8,
}

/// The lanes `from..to`, all of one terrain.
pub open spec fn lane_run(from: int, to: int, solt_type: SoltType) -> Seq<Lane> {
    Seq::new((to - from) as nat, |i: int| Lane { lane: (from + i) as u8, solt_type })
}

/// The lanes of a lawn by day: as many rows as are laid with sod, one step
/// more where the lawn grows as the round begins, centred on the middle row.
pub open spec fn day_lanes(sod_type: SodType, upgrade_sod_type: bool) -> Seq<Lane> {
    match (sod_type, upgrade_sod_type) {
        (SodType::Bare, false) => Seq::empty(),
        (SodType::SodRow1, false) | (SodType::Bare, true) => lane_run(2, 3, SoltType::Dirt),
        (SodType::SodRow3, false) | (SodType::SodRow1, true) => lane_run(1, 4, SoltType::Dirt),
        (SodType::SodRow5, _) | (SodType::SodRow3, true) => lane_run(0, 5, SoltType::Dirt),
    }
}

/// The lanes of a pool: two of soil, two of water, two of soil.
pub open spec fn swim_lanes() -> Seq<Lane> {
    seq![
        Lane { lane: 0, solt_type: SoltType::Dirt },
        Lane { lane: 1, solt_type: SoltType::Dirt },
        Lane { lane: 2, solt_type: SoltType::River },
        Lane { lane: 3, solt_type: SoltType::River },
        Lane { lane: 4, solt_type: SoltType::Dirt },
        Lane { lane: 5, solt_type: SoltType::Dirt },
    ]
}

/// The lanes on which defenders are planted.
pub open spec fn plant_lanes(background: LevelBackground) -> Seq<Lane> {
    match background {
        LevelBackground::Day { sod_type, upgrade_sod_type } => day_lanes(sod_type, upgrade_sod_type),
        LevelBackground::Night => lane_run(0, 5, SoltType::Dirt),
        LevelBackground::Swim | LevelBackground::SwimFog => swim_lanes(),
        LevelBackground::Roof | LevelBackground::RoofNight => lane_run(0, 5, SoltType::Roof),
    }
}

/// The slot at column `column` of a lane.
pub open spec fn plant_place(lane: Lane, column: int) -> SoltPlace {
    SoltPlace {
        solt: PlantSolt::empty(lane.solt_type),
        position: Vec2 {
            x: (-320_000 + column * 80_000) as i32,
            y: (lane.lane as int * 100_000 - 220_000) as i32,
        },
        lane: lane.lane,
    }
}

/// The entry place of a lane.
pub open spec fn zombie_place(lane: Lane) -> ZombieSoltPlace {
    ZombieSoltPlace {
        solt_type: lane.solt_type,
        position: Vec2 { x: 500_000, y: (lane.lane as int * 100_000 - 235_000) as i32 },
        lane: lane.lane,
    }
}

/// Adds the lanes `from..to` of one terrain.
fn push_lanes(lanes: &mut Vec<Lane>, from: u8, to: u8, solt_type: SoltType)
    requires
        from <= to,
    ensures
        final(lanes)@ == old(lanes)@ + lane_run(from as int, to as int, solt_type),
{
    let mut lane: u8 = from;
    while lane < to
        invariant
            from <= lane <= to,
            lanes@ == old(lanes)@ + lane_run(from as int, lane as int, solt_type),
        decreases to - lane,
    {
        let ghost before = lanes@;
        lanes.push(Lane { lane, solt_type });
        proof {
            assert(lanes@ =~= old(lanes)@ + lane_run(from as int, lane as int + 1, solt_type));
        }
        lane += 1;
    }
}

/// The lanes on which defenders are planted.
pub fn lanes(background: &LevelBackground) -> (r: Vec<Lane>)
    ensures
        r@ == plant_lanes(*background),
{
    let mut found: Vec<Lane> = Vec::new();
    match background {
        LevelBackground::Day { sod_type, upgrade_sod_type } => {
            match (sod_type, upgrade_sod_type) {
                (SodType::Bare, false) => {},
                (SodType::SodRow1, false) | (SodType::Bare, true) => {
                    push_lanes(&mut found, 2, 3, SoltType::Dirt);
                },
                (SodType::SodRow3, false) | (SodType::SodRow1, true) => {
                    push_lanes(&mut found, 1, 4, SoltType::Dirt);
                },
                (SodType::SodRow5, _) | (SodType::SodRow3, true) => {
                    push_lanes(&mut found, 0, 5, SoltType::Dirt);
                },
            }
        },
        LevelBackground::Night => {
            push_lanes(&mut found, 0, 5, SoltType::Dirt);
        },
        LevelBackground::Swim | LevelBackground::SwimFog => {
            push_lanes(&mut found, 0, 2, SoltType::Dirt);
            push_lanes(&mut found, 2, 4, SoltType::River);
            push_lanes(&mut found, 4, 6, SoltType::Dirt);
        },
        LevelBackground::Roof | LevelBackground::RoofNight => {
            push_lanes(&mut found, 0, 5, SoltType::Roof);
        },
    }
    proof {
        assert(found@ =~= plant_lanes(*background));
    }
    found
}

/// Whether a lane of the given number is among `lanes`.
pub open spec fn has_lane(lanes: Seq<Lane>, lane: u8) -> bool {
    exists|i: int| 0 <= i < lanes.len() && (#[trigger] lanes[i]).lane == lane
}

/// The numbers of the lanes that are laid with sod as the round begins on a
/// lawn that grows: in ascending order, those that the grown lawn has and
/// the lawn before did not.
pub fn new_sod_lanes(sod_type: SodType) -> (r: Vec<u8>)
    ensures
        forall|i: int, j: int| 0 <= i < j < r@.len() ==> r@[i] < r@[j],
        forall|lane: u8|
            r@.contains(lane) <==> has_lane(day_lanes(sod_type, true), lane) && !has_lane(
                day_lanes(sod_type, false),
                lane,
            ),
{
    let mut found: Vec<u8> = Vec::new();
    match sod_type {
        SodType::Bare => {
            found.push(2);
        },
        SodType::SodRow1 => {
            found.push(1);
            found.push(3);
        },
        SodType::SodRow3 => {
            found.push(0);
            found.push(4);
        },
        SodType::SodRow5 => {},
    }
    proof {
        let grown = day_lanes(sod_type, true);
        let before = day_lanes(sod_type, false);
        assert forall|lane: u8|
            found@.contains(lane) <==> has_lane(grown, lane) && !has_lane(before, lane) by {
            if has_lane(grown, lane) {
                let i = choose|i: int| 0 <= i < grown.len() && (#[trigger] grown[i]).lane == lane;
            }
            if has_lane(before, lane) {
                let i = choose|i: int| 0 <= i < before.len() && (#[trigger] before[i]).lane == lane;
            }
            if found@.contains(lane) {
                let k = choose|k: int| 0 <= k < found@.len() && found@[k] == lane;
                match sod_type {
                    SodType::Bare => {
                        assert(grown[0].lane == lane);
                    },
                    SodType::SodRow1 => {
                        assert(grown[lane as int - 1].lane == lane);
                    },
                    SodType::SodRow3 => {
                        assert(grown[lane as int].lane == lane);
                    },
                    SodType::SodRow5 => {},
                }
            }
            if has_lane(grown, lane) && !has_lane(before, lane) {
                match sod_type {
                    SodType::Bare => {
                        assert(found@[0] == lane);
                    },
                    SodType::SodRow1 => {
                        if lane == 2 {
                            assert(before[0].lane == lane);
                        } else if lane == 1 {
                            assert(found@[0] == lane);
                        } else {
                            assert(found@[1] == lane);
                        }
                    },
                    SodType::SodRow3 => {
                        if 1 <= lane <= 3 {
                            assert(before[lane as int - 1].lane == lane);
                        } else if lane == 0 {
                            assert(found@[0] == lane);
                        } else {
                            assert(found@[1] == lane);
                        }
                    },
                    SodType::SodRow5 => {
                        let i = choose|i: int| 0 <= i < grown.len() && (#[trigger] grown[i]).lane == lane;
                        assert(before[i].lane == lane);
                    },
                }
            }
        }
    }
    found
}

/// The lanes that a mower guards: those of the field, and on a pool the six
/// lanes whatever their terrain.
pub open spec fn car_lanes(background: LevelBackground) -> Seq<CleanerCar> {
    Seq::new(
        plant_lanes(background).len(),
        |i: int| CleanerCar { lane: plant_lanes(background)[i].lane },
    )
}

/// The planting slots of a field: nine along every lane, lane after lane.
pub fn setup_plant_solt(background: &LevelBackground) -> (r: Vec<SoltPlace>)
    ensures
        r@.len() == plant_lanes(*background).len() * 9,
        forall|k: int|
            0 <= k < r@.len() ==> (#[trigger] r@[k]) == plant_place(
                plant_lanes(*background)[k / 9],
                k % 9,
            ),
{
    let field = lanes(background);
    let mut places: Vec<SoltPlace> = Vec::new();
    let mut l: usize = 0;
    while l < field.len()
        invariant
            l <= field.len(),
            field@ == plant_lanes(*background),
            places@.len() == l * 9,
            forall|k: int| 0 <= k < places@.len() ==> (#[trigger] places@[k]) == plant_place(field@[k / 9], k % 9),
        decreases field.len() - l,
    {
        let lane: Lane = field[l];
        let mut column: usize = 0;
        while column < SOLTS_PER_LANE
            invariant
                column <= 9,
                l < field.len(),
                lane == field@[l as int],
                places@.len() == l * 9 + column,
                forall|k: int|
                    0 <= k < places@.len() ==> (#[trigger] places@[k]) == plant_place(
                        field@[k / 9],
                        k % 9,
                    ),
            decreases 9 - column,
        {
            let x: i32 = -320_000 + (column as i32) * 80_000;
            let y: i32 = (lane.lane as i32) * 100_000 - 220_000;
            let ghost k = places@.len() as int;
            places.push(
                SoltPlace {
                    solt: PlantSolt::new(lane.solt_type),
                    position: Vec2 { x, y },
                    lane: lane.lane,
                },
            );
            proof {
                assert(k / 9 == l as int && k % 9 == column as int);
            }
            column += 1;
        }
        l += 1;
    }
    places
}

/// The places where invaders enter: one at the far end of every lane.
pub fn setup_zombie_solt(background: &LevelBackground) -> (r: Vec<ZombieSoltPlace>)
    ensures
        r@.len() == plant_lanes(*background).len(),
        forall|k: int| 0 <= k < r@.len() ==> (#[trigger] r@[k]) == zombie_place(plant_lanes(*background)[k]),
{
    let field = lanes(background);
    let mut places: Vec<ZombieSoltPlace> = Vec::new();
    let mut l: usize = 0;
    while l < field.len()
        invariant
            l <= field.len(),
            places@.len() == l,
            forall|k: int| 0 <= k < places@.len() ==> (#[trigger] places@[k]) == zombie_place(field@[k]),
        decreases field.len() - l,
    {
        let lane: Lane = field[l];
        let y: i32 = (lane.lane as i32) * 100_000 - 235_000;
        places.push(
            ZombieSoltPlace {
                solt_type: lane.solt_type,
                position: Vec2 { x: 500_000, y },
                lane: lane.lane,
            },
        );
        l += 1;
    }
    places
}

/// The mowers of a field: one at the head of every lane.
pub fn setup_cleanup_car(background: &LevelBackground) -> (r: Vec<CleanerCar>)
    ensures
        r@ == car_lanes(*background),
{
    let field = lanes(background);
    let mut cars: Vec<CleanerCar> = Vec::new();
    let mut l: usize = 0;
    while l < field.len()
        invariant
            l <= field.len(),
            field@ == plant_lanes(*background),
            cars@.len() == l,
            forall|k: int| 0 <= k < cars@.len() ==> (#[trigger] cars@[k]) == car_lanes(*background)[k],
        decreases field.len() - l,
    {
        let lane: Lane = field[l];
        cars.push(CleanerCar { lane: lane.lane });
        l += 1;
    }
    proof {
        assert(cars@ =~= car_lanes(*background));
    }
    cars
}

impl SoltSite {
    /// The slot at a place, under a handle.
    pub fn new(entity: Entity, place: &SoltPlace) -> (r: SoltSite)
        ensures
            r == (SoltSite {
                entity,
                solt: place.solt,
                position: place.position,
                lane: place.lane,
            }),
    {
        SoltSite { entity, solt: place.solt, position: place.position, lane: place.lane }
    }

    /// Where the slot lies along its lane.
    pub fn lane_position(&self) -> (r: LanePosition)
        ensures
            r == (LanePosition { lane: self.lane, x: self.position.x }),
    {
        LanePosition { lane: self.lane, x: self.position.x }
    }
}

} // verus!
