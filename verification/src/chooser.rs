//! The choice of seeds before a round, and which seed card the pointer is
//! over.

use vstd::prelude::*;
use crate::anim::{Slide, Transform, Vec3};
use crate::button::{ButtonEnabled, ButtonInteraction};
use crate::fixed::{add_coord, clamp_i32, to_coord};
use crate::geom::Vec2;
use crate::plant::{PlantType, SeedHover, PLANT_TYPES};
use crate::reward::is_unlocked;
use crate::solt::Entity;
use crate::timeline::{setup_start_game_timer, start_game_timeline, GameTimer};

verus! {

/// Where the first seed of the seed bank lies.
pub const BANK_LEFT: i32 = -287_500;

/// The distance between two seeds of the seed bank.
pub const BANK_STEP: i32 = 55_000;

/// The height at which the seeds of the seed bank lie.
pub const BANK_Y: i32 = 257_000;

/// The depth at which a chosen seed lies.
pub const BANK_Z: i32 = 1_900;

/// Nanoseconds that a seed takes to change its place.
pub const SEED_MOVE_TIME: u64 = 100_000_000;

/// Half the width of a seed card.
pub const SEED_HALF_WIDTH: i32 = 25_000;

/// Half the height of a seed card.
pub const SEED_HALF_HEIGHT: i32 = 35_000;

/// Where a seed is during the choice.
#[derive(Clone, Copy, Debug, PartialEq, Eq, Structural)]
pub enum SeedPlace {
    /// In the box of seeds to choose from.
    Chooser,
    /// On the seed bank: chosen.
    Bank,
}

/// A seed during the choice.
#[derive(Clone, Copy, Debug, PartialEq, Eq, Structural)]
pub struct ChooserSeed {
    pub entity: Entity,
    pub place: SeedPlace,
    pub hover: SeedHover,
    /// Where the seed is now.
    pub transform: Transform,
    /// Where the seed lies in the box.
    pub box_transform: Transform,
}

/// The number of chosen seeds among the first `n`.
pub open spec fn chosen_among(seeds: Seq<ChooserSeed>, n: int) -> int
    decreases n,
{
    if n <= 0 {
        0
    } else {
        chosen_among(seeds, n - 1) + if seeds[n - 1].place == SeedPlace::Bank {
            1int
        } else {
            0int
        }
    }
}

/// The number of chosen seeds.
pub open spec fn chosen(seeds: Seq<ChooserSeed>) -> int {
    chosen_among(seeds, seeds.len() as int)
}

/// Whether `i` is the first seed at `place` that the pointer is over.
pub open spec fn is_hovered_at(seeds: Seq<ChooserSeed>, place: SeedPlace, i: int) -> bool {
    &&& 0 <= i < seeds.len()
    &&& seeds[i].place == place
    &&& seeds[i].hover == SeedHover::Hover
    &&& forall|j: int| 0 <= j < i ==> !((#[trigger] seeds[j]).place == place && seeds[j].hover == SeedHover::Hover)
}

/// Whether the pointer is over no seed at `place`.
pub open spec fn none_hovered_at(seeds: Seq<ChooserSeed>, place: SeedPlace) -> bool {
    forall|j: int| 0 <= j < seeds.len() ==> !((#[trigger] seeds[j]).place == place && seeds[j].hover == SeedHover::Hover)
}

/// The place of the seed bank with the given index.
pub open spec fn bank_place(index: int) -> Transform {
    Transform {
        translation: Vec3 {
            x: clamp_i32(BANK_LEFT as int + BANK_STEP as int * index),
            y: BANK_Y,
            z: BANK_Z,
        },
        scale: Vec3 { x: 1_000, y: 1_000, z: 1_000 },
    }
}

/// Counts the chosen seeds.
pub fn count_chosen(seeds: &Vec<ChooserSeed>) -> (r: usize)
    ensures
        r == chosen(seeds@),
{
    let mut count: usize = 0;
    let mut i: usize = 0;
    while i < seeds.len()
        invariant
            i <= seeds.len(),
            count == chosen_among(seeds@, i as int),
            count <= i,
        decreases seeds.len() - i,
    {
        if seeds[i].place == SeedPlace::Bank {
            count += 1;
        }
        i += 1;
    }
    count
}

/// The first seed at `place` that the pointer is over.
pub fn hovered_at(seeds: &Vec<ChooserSeed>, place: SeedPlace) -> (r: Option<usize>)
    ensures
        match r {
            Some(i) => is_hovered_at(seeds@, place, i as int),
            None => none_hovered_at(seeds@, place),
        },
{
    let mut i: usize = 0;
    while i < seeds.len()
        invariant
            i <= seeds.len(),
            forall|j: int| 0 <= j < i ==> !((#[trigger] seeds@[j]).place == place && seeds@[j].hover == SeedHover::Hover),
        decreases seeds.len() - i,
    {
        if seeds[i].place == place && seeds[i].hover == SeedHover::Hover {
            return Some(i);
        }
        i += 1;
    }
    None
}

/// Whether the round can be started: as many seeds are chosen as the seed
/// bank has places.
pub fn update_start_button_enabled(seeds: &Vec<ChooserSeed>, plant_solt_count: usize) -> (r:
    ButtonEnabled)
    ensures
        r == if chosen(seeds@) == plant_solt_count {
            ButtonEnabled::Enabled
        } else {
            ButtonEnabled::Disabled
        },
{
    if count_chosen(seeds) == plant_solt_count {
        ButtonEnabled::Enabled
    } else {
        ButtonEnabled::Disabled
    }
}

/// What a click on the box chooses: the first seed of the box under the
/// pointer, if the seed bank has a place left.
pub open spec fn selects(left_click: bool, seeds: Seq<ChooserSeed>, plant_solt_count: usize, i: int) -> bool {
    left_click && is_hovered_at(seeds, SeedPlace::Chooser, i) && chosen(seeds) < plant_solt_count
}

/// Handles a left click on the box of seeds. The seed under the pointer
/// moves to the next free place of the seed bank, where the seed bank has
/// one; else nothing changes.
pub fn input_select_seed(left_click: bool, seeds: &mut Vec<ChooserSeed>, plant_solt_count: usize) -> (r:
    Option<Slide>)
    ensures
        final(seeds)@.len() == old(seeds)@.len(),
        match r {
            Some(slide) => exists|i: int|
                {
                    &&& #[trigger] selects(left_click, old(seeds)@, plant_solt_count, i)
                    &&& slide == (Slide {
                        entity: old(seeds)@[i].entity,
                        from: old(seeds)@[i].box_transform,
                        to: bank_place(chosen(old(seeds)@)),
                    })
                    &&& final(seeds)@ == old(seeds)@.update(
                        i,
                        ChooserSeed { place: SeedPlace::Bank, ..old(seeds)@[i] },
                    )
                },
            None => final(seeds)@ == old(seeds)@ && forall|i: int|
                !selects(left_click, old(seeds)@, plant_solt_count, i),
        },
{
    if !left_click {
        return None;
    }
    let i = match hovered_at(seeds, SeedPlace::Chooser) {
        None => {
            assert forall|k: int| !selects(left_click, seeds@, plant_solt_count, k) by {
                if 0 <= k < seeds@.len() {
                    assert(!(seeds@[k].place == SeedPlace::Chooser && seeds@[k].hover
                        == SeedHover::Hover));
                }
            }
            return None;
        },
        Some(i) => i,
    };
    let count: usize = count_chosen(seeds);
    if count >= plant_solt_count {
        return None;
    }
    let mut seed: ChooserSeed = seeds[i];
    let x: i32 = to_coord((BANK_LEFT as i128) + (BANK_STEP as i128) * (count as i128));
    let slide = Slide {
        entity: seed.entity,
        from: seed.box_transform,
        to: Transform {
            translation: Vec3 { x, y: BANK_Y, z: BANK_Z },
            scale: Vec3 { x: 1_000, y: 1_000, z: 1_000 },
        },
    };
    seed.place = SeedPlace::Bank;
    seeds[i] = seed;
    proof {
        assert(selects(left_click, old(seeds)@, plant_solt_count, i as int));
        assert(seeds@ =~= old(seeds)@.update(
            i as int,
            ChooserSeed { place: SeedPlace::Bank, ..old(seeds)@[i as int] },
        ));
    }
    Some(slide)
}

/// Whether the seed at index `j` closes up when the seed at index `p` leaves
/// the seed bank: it is another chosen seed that lies at the same place or
/// to the right.
pub open spec fn closes_up(seeds: Seq<ChooserSeed>, p: int, j: int) -> bool {
    j != p && seeds[j].place == SeedPlace::Bank && seeds[j].transform.translation.x
        >= seeds[p].transform.translation.x
}

/// The move of a seed by one place to the left.
pub open spec fn step_left(seed: ChooserSeed) -> Slide {
    Slide {
        entity: seed.entity,
        from: seed.transform,
        to: Transform {
            translation: Vec3 {
                x: clamp_i32(seed.transform.translation.x as int - BANK_STEP as int),
                ..seed.transform.translation
            },
            ..seed.transform
        },
    }
}

/// The moves of the seeds among the first `n` that close up when the seed at
/// index `p` leaves the seed bank.
pub open spec fn closing_up(seeds: Seq<ChooserSeed>, p: int, n: int) -> Seq<Slide>
    decreases n,
{
    if n <= 0 {
        Seq::empty()
    } else if closes_up(seeds, p, n - 1) {
        closing_up(seeds, p, n - 1).push(step_left(seeds[n - 1]))
    } else {
        closing_up(seeds, p, n - 1)
    }
}

/// The moves when the seed at index `p` leaves the seed bank: the seed goes
/// back to its place in the box, and the chosen seeds to its right close up.
pub open spec fn giveup_slides(seeds: Seq<ChooserSeed>, p: int) -> Seq<Slide> {
    seq![Slide { entity: seeds[p].entity, from: seeds[p].transform, to: seeds[p].box_transform }]
        + closing_up(seeds, p, seeds.len() as int)
}

/// Handles a left click on the seed bank during the choice: the chosen seed
/// under the pointer goes back to the box, and the chosen seeds to its right
/// close up. Returns the moves to animate; none where nothing was given up.
pub fn input_giveup_seed(left_click: bool, seeds: &mut Vec<ChooserSeed>) -> (r: Vec<Slide>)
    ensures
        final(seeds)@.len() == old(seeds)@.len(),
        !left_click || none_hovered_at(old(seeds)@, SeedPlace::Bank) ==> r@.len() == 0
            && final(seeds)@ == old(seeds)@,
        left_click ==> forall|p: int|
            is_hovered_at(old(seeds)@, SeedPlace::Bank, p) ==> r@ == giveup_slides(old(seeds)@, p)
                && final(seeds)@ == old(seeds)@.update(
                p,
                ChooserSeed { place: SeedPlace::Chooser, ..old(seeds)@[p] },
            ),
{
    let mut slides: Vec<Slide> = Vec::new();
    if !left_click {
        return slides;
    }
    let p = match hovered_at(seeds, SeedPlace::Bank) {
        None => {
            return slides;
        },
        Some(p) => p,
    };
    assert forall|k: int| is_hovered_at(seeds@, SeedPlace::Bank, k) implies k == p as int by {
        if k < p as int {
            assert(!(seeds@[k].place == SeedPlace::Bank && seeds@[k].hover == SeedHover::Hover));
        } else if k > p as int {
            assert(!(seeds@[p as int].place == SeedPlace::Bank && seeds@[p as int].hover
                == SeedHover::Hover));
        }
    }
    let picked: ChooserSeed = seeds[p];
    slides.push(Slide { entity: picked.entity, from: picked.transform, to: picked.box_transform });
    let ghost head = slides@;
    let mut j: usize = 0;
    while j < seeds.len()
        invariant
            j <= seeds.len(),
            p < seeds.len(),
            seeds@ == old(seeds)@,
            picked == seeds@[p as int],
            slides@ == head + closing_up(seeds@, p as int, j as int),
        decreases seeds.len() - j,
    {
        let seed: ChooserSeed = seeds[j];
        if j != p && seed.place == SeedPlace::Bank && seed.transform.translation.x
            >= picked.transform.translation.x {
            let ghost before = slides@;
            slides.push(
                Slide {
                    entity: seed.entity,
                    from: seed.transform,
                    to: Transform {
                        translation: Vec3 {
                            x: add_coord(seed.transform.translation.x, -BANK_STEP),
                            y: seed.transform.translation.y,
                            z: seed.transform.translation.z,
                        },
                        scale: seed.transform.scale,
                    },
                },
            );
            proof {
                assert(slides@ =~= head + closing_up(seeds@, p as int, j as int + 1));
            }
        }
        j += 1;
    }
    let mut back: ChooserSeed = picked;
    back.place = SeedPlace::Chooser;
    seeds[p] = back;
    proof {
        assert(seeds@ =~= old(seeds)@.update(
            p as int,
            ChooserSeed { place: SeedPlace::Chooser, ..old(seeds)@[p as int] },
        ));
    }
    slides
}

/// Handles the button that starts the round. A click starts it when as many
/// seeds are chosen as the seed bank has places: the button is disabled at
/// once, the box of seeds fades out and the round goes on to its entry.
pub fn start_game_button(
    interaction: &ButtonInteraction,
    enabled: &mut ButtonEnabled,
    seeds: &Vec<ChooserSeed>,
    plant_solt_count: usize,
) -> (r: Vec<GameTimer>)
    ensures
        (*interaction == ButtonInteraction::Click && chosen(seeds@) == plant_solt_count) ==> r@
            == start_game_timeline() && *final(enabled) == ButtonEnabled::Disabled,
        !(*interaction == ButtonInteraction::Click && chosen(seeds@) == plant_solt_count) ==> r@.len()
            == 0 && *final(enabled) == *old(enabled),
{
    let clicked = match interaction {
        ButtonInteraction::Click => true,
        _ => false,
    };
    if !clicked || count_chosen(seeds) != plant_solt_count {
        return Vec::new();
    }
    *enabled = ButtonEnabled::Disabled;
    setup_start_game_timer()
}

/// Whether the pointer at `cursor` is over the seed card at `place`.
pub open spec fn over_card(place: Vec3, cursor: Vec2) -> bool {
    place.x as int - SEED_HALF_WIDTH as int <= cursor.x as int <= place.x as int
        + SEED_HALF_WIDTH as int && place.y as int - SEED_HALF_HEIGHT as int <= cursor.y as int
        <= place.y as int + SEED_HALF_HEIGHT as int
}

/// Whether `i` is the seed card that the pointer is over: of the cards under
/// the pointer the one on top, and of those equally high the last.
pub open spec fn is_top_card(places: Seq<Vec3>, cursor: Vec2, i: int) -> bool {
    &&& 0 <= i < places.len()
    &&& over_card(places[i], cursor)
    &&& forall|j: int| 0 <= j < places.len() && over_card(#[trigger] places[j], cursor) ==> places[j].z <= places[i].z
    &&& forall|j: int| i < j < places.len() && over_card(#[trigger] places[j], cursor) ==> places[j].z < places[i].z
}

/// Finds the seed card that the pointer is over.
pub fn update_seed_hover(places: &Vec<Vec3>, cursor: Vec2) -> (r: Option<usize>)
    ensures
        match r {
            Some(i) => is_top_card(places@, cursor, i as int),
            None => forall|j: int| 0 <= j < places@.len() ==> !over_card(#[trigger] places@[j], cursor),
        },
{
    let mut top: Option<usize> = None;
    let mut j: usize = 0;
    while j < places.len()
        invariant
            j <= places.len(),
            match top {
                Some(i) => i < j && is_top_card(places@.take(j as int), cursor, i as int),
                None => forall|k: int| 0 <= k < j ==> !over_card(#[trigger] places@[k], cursor),
            },
        decreases places.len() - j,
    {
        let place: Vec3 = places[j];
        let over = (place.x as i64) - (SEED_HALF_WIDTH as i64) <= (cursor.x as i64) && (
        cursor.x as i64) <= (place.x as i64) + (SEED_HALF_WIDTH as i64) && (place.y as i64) - (
        SEED_HALF_HEIGHT as i64) <= (cursor.y as i64) && (cursor.y as i64) <= (place.y as i64) + (
        SEED_HALF_HEIGHT as i64);
        let ghost before = top;
        if over {
            let higher = match top {
                Some(i) => places[i].z <= place.z,
                None => true,
            };
            if higher {
                top = Some(j);
            }
        }
        proof {
            let now = places@.take(j as int + 1);
            let was = places@.take(j as int);
            assert forall|k: int| 0 <= k < j implies now[k] == was[k] by {}
            match top {
                Some(i) => {
                    assert(is_top_card(now, cursor, i as int));
                },
                None => {},
            }
        }
        j += 1;
    }
    proof {
        assert(places@.take(j as int) =~= places@);
    }
    top
}

/// The depth at which a seed lies that is on the seed bank from the start.
pub const PREPLACED_Z: i32 = 1_100;

/// Where the seed with the given index lies that is on the seed bank from
/// the start.
pub open spec fn preplaced_place(index: int) -> Transform {
    Transform {
        translation: Vec3 { z: PREPLACED_Z, ..bank_place(index).translation },
        ..bank_place(index)
    }
}

/// The seeds of a player who has nothing to choose, as they lie on the seed
/// bank: every unlocked species once, in the order of the almanac.
pub fn setup_seedbank(unlock_plugins: &Vec<PlantType>) -> (r: Vec<PlantType>)
    ensures
        forall|i: int, j: int| 0 <= i < j < r@.len() ==> r@[i].spec_ordinal() < r@[j].spec_ordinal(),
        forall|plant: PlantType| r@.contains(plant) <==> unlock_plugins@.contains(plant),
{
    let mut seeds: Vec<PlantType> = Vec::new();
    let mut n: u8 = 0;
    while n < PLANT_TYPES
        invariant
            n <= PLANT_TYPES,
            forall|i: int| 0 <= i < seeds@.len() ==> (#[trigger] seeds@[i]).spec_ordinal() < n,
            forall|i: int, j: int| 0 <= i < j < seeds@.len() ==> seeds@[i].spec_ordinal() < seeds@[j].spec_ordinal(),
            forall|plant: PlantType|
                seeds@.contains(plant) <==> unlock_plugins@.contains(plant) && plant.spec_ordinal()
                    < n,
        decreases PLANT_TYPES - n,
    {
        let ghost before = seeds@;
        match PlantType::from_ordinal(n) {
            None => {},
            Some(plant) => {
                if is_unlocked(unlock_plugins, plant) {
                    seeds.push(plant);
                    proof {
                        assert(seeds@[before.len() as int] == plant);
                        assert forall|other: PlantType|
                            seeds@.contains(other) <==> unlock_plugins@.contains(other)
                                && other.spec_ordinal() < n + 1 by {
                            if seeds@.contains(other) {
                                let at = choose|at: int| 0 <= at < seeds@.len() && seeds@[at] == other;
                                if at < before.len() {
                                    assert(before[at] == other);
                                    assert(before.contains(other));
                                }
                            }
                            if unlock_plugins@.contains(other) && other.spec_ordinal() < n + 1 {
                                if other.spec_ordinal() < n {
                                    assert(before.contains(other));
                                    let at = choose|at: int| 0 <= at < before.len() && before[at] == other;
                                    assert(seeds@[at] == other);
                                } else {
                                    assert(other == plant);
                                }
                            }
                        }
                    }
                } else {
                    proof {
                        assert forall|other: PlantType|
                            unlock_plugins@.contains(other) && other.spec_ordinal() < n + 1
                                implies other.spec_ordinal() < n by {
                            if other.spec_ordinal() == n {
                                assert(other == plant);
                            }
                        }
                    }
                }
            },
        }
        n += 1;
    }
    seeds
}

/// Where the seed with the given index lies that is on the seed bank from
/// the start.
pub fn preplaced_transform(index: usize) -> (r: Transform)
    ensures
        r == preplaced_place(index as int),
{
    Transform {
        translation: Vec3 {
            x: to_coord((BANK_LEFT as i128) + (BANK_STEP as i128) * (index as i128)),
            y: BANK_Y,
            z: PREPLACED_Z,
        },
        scale: Vec3 { x: 1_000, y: 1_000, z: 1_000 },
    }
}

} // verus!
