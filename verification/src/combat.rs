//! Combat: projectiles that strike invaders, invaders that eat defenders,
//! explosions and the mowers.

use vstd::prelude::*;
use crate::fixed::{add_coord, clamp_i32, clamp_i64, over_time, scaled_by_time, sub_clamped};
use crate::geom::{dist2, Rect, Vec2};
use crate::motion::MoveVelocity;
use crate::plant::PlantHp;
use crate::planting::{find_tag, tag_in, PlantTag, SoltSite};
use crate::shoot::LanePosition;
use crate::solt::{Entity, PlantSolt};
use crate::spatial::{lemma_nearest_exists, nearest, nearest_index, Located, SpatialIndex};
use crate::timer::{Countdown, TimerMode};
use crate::zombie::{HpView, ZombieHp};

verus! {

/// What a projectile takes off an invader.
pub const PROJECTILE_DAMAGE: u32 = 20_000;

/// Square of the distance within which an invader starts to eat.
pub const MELEE_REACH_SQUARED: u128 = 1_600_000_000;

/// Nanoseconds between two bites.
pub const BITE_PERIOD: u64 = 500_000_000;

/// How near a mower lets an invader come, and how far its blades reach.
pub const CAR_REACH: i32 = 40_000;

/// Speed of a running mower, in thousandths of a world unit per second.
pub const CAR_SPEED: i32 = 200_000;

/// The x beyond which a mower has left the field.
pub const CAR_LIMIT: i32 = 600_000;

/// The x behind which an invader has got through.
pub const DEFENSE_LINE: i32 = -450_000;

/// The box around the anchor of an invader in which a projectile strikes it.
pub open spec fn hit_box(zombie: Vec2) -> Rect {
    Rect {
        min: Vec2 { x: clamp_i32(zombie.x as int - 31_000), y: clamp_i32(zombie.y as int - 14_000) },
        max: Vec2 {
            x: clamp_i32(zombie.x as int + 15_000),
            y: clamp_i32(zombie.y as int + 131_000),
        },
    }
}

/// The part of the field that projectiles fly in.
pub open spec fn screen_rect() -> Rect {
    Rect { min: Vec2 { x: -500_000i32, y: -400_000i32 }, max: Vec2 { x: 500_000, y: 400_000 } }
}

/// Whether a projectile at `projectile` strikes an invader at `zombie`.
pub fn projectile_strikes(zombie: Vec2, projectile: Vec2) -> (r: bool)
    ensures
        r == hit_box(zombie).spec_contains(projectile),
{
    let bounds = Rect {
        min: Vec2 { x: add_coord(zombie.x, -31_000), y: add_coord(zombie.y, -14_000) },
        max: Vec2 { x: add_coord(zombie.x, 15_000), y: add_coord(zombie.y, 131_000) },
    };
    bounds.contains(projectile)
}

/// Whether a projectile has left the field and is to go.
pub fn remove_outrange_projectile(position: Vec2) -> (r: bool)
    ensures
        r == !screen_rect().spec_contains(position),
{
    let screen = Rect {
        min: Vec2 { x: -500_000, y: -400_000 },
        max: Vec2 { x: 500_000, y: 400_000 },
    };
    !screen.contains(position)
}

/// A projectile in flight.
#[derive(Clone, Copy, Debug, PartialEq, Eq, Structural)]
pub struct Projectile {
    pub entity: Entity,
    pub position: Vec2,
}

/// An invader that can be shot at.
#[derive(Debug)]
pub struct ZombieBody {
    pub entity: Entity,
    pub position: Vec2,
    pub hp: ZombieHp,
    /// Whether nothing can hurt it.
    pub invincible: bool,
}

/// An invader as a plain value.
pub struct ZombieBodyView {
    pub entity: Entity,
    pub position: Vec2,
    pub hp: HpView,
    pub invincible: bool,
}

impl View for ZombieBody {
    type V = ZombieBodyView;

    open spec fn view(&self) -> ZombieBodyView {
        ZombieBodyView {
            entity: self.entity,
            position: self.position,
            hp: self.hp@,
            invincible: self.invincible,
        }
    }
}

/// A projectile that struck an invader: both handles. The projectile is to
/// go and the invader flinches.
#[derive(Clone, Copy, Debug, PartialEq, Eq, Structural)]
pub struct Hit {
    pub projectile: Entity,
    pub zombie: Entity,
}

/// The invaders as the spatial index sees them.
pub open spec fn located(zombies: Seq<ZombieBodyView>) -> Seq<Located> {
    Seq::new(zombies.len(), |i: int| Located { position: zombies[i].position, entity: zombies[i].entity })
}

/// The invader that a projectile strikes: the one nearest to it, if the
/// projectile is in its box.
pub open spec fn struck(zombies: Seq<ZombieBodyView>, projectile: Projectile) -> Option<int> {
    match nearest_index(located(zombies), projectile.position) {
        Some(i) => if hit_box(zombies[i].position).spec_contains(projectile.position) {
            Some(i)
        } else {
            None
        },
        None => None,
    }
}

/// The invaders after one projectile: the one it strikes has taken the damage
/// unless it is invincible.
pub open spec fn after_projectile(zombies: Seq<ZombieBodyView>, projectile: Projectile) -> Seq<ZombieBodyView> {
    match struck(zombies, projectile) {
        Some(i) => if zombies[i].invincible {
            zombies
        } else {
            zombies.update(
                i,
                ZombieBodyView { hp: zombies[i].hp.damaged(PROJECTILE_DAMAGE), ..zombies[i] },
            )
        },
        None => zombies,
    }
}

/// The invaders after the projectiles, one after the other.
pub open spec fn after_projectiles(zombies: Seq<ZombieBodyView>, projectiles: Seq<Projectile>) -> Seq<
    ZombieBodyView,
>
    decreases projectiles.len(),
{
    if projectiles.len() == 0 {
        zombies
    } else {
        after_projectile(after_projectiles(zombies, projectiles.drop_last()), projectiles.last())
    }
}

/// The hits of the projectiles, in their order.
pub open spec fn hits_of(zombies: Seq<ZombieBodyView>, projectiles: Seq<Projectile>) -> Seq<Hit>
    decreases projectiles.len(),
{
    if projectiles.len() == 0 {
        Seq::empty()
    } else {
        let before = hits_of(zombies, projectiles.drop_last());
        match struck(zombies, projectiles.last()) {
            Some(i) => before.push(Hit { projectile: projectiles.last().entity, zombie: zombies[i].entity }),
            None => before,
        }
    }
}

/// Damage does not move an invader.
pub proof fn lemma_after_projectiles_places(zombies: Seq<ZombieBodyView>, projectiles: Seq<Projectile>)
    ensures
        located(after_projectiles(zombies, projectiles)) == located(zombies),
        after_projectiles(zombies, projectiles).len() == zombies.len(),
        forall|i: int|
            0 <= i < zombies.len() ==> (#[trigger] after_projectiles(zombies, projectiles)[i]).invincible
                == zombies[i].invincible && after_projectiles(zombies, projectiles)[i].entity
                == zombies[i].entity && after_projectiles(zombies, projectiles)[i].position
                == zombies[i].position,
    decreases projectiles.len(),
{
    if projectiles.len() > 0 {
        lemma_after_projectiles_places(zombies, projectiles.drop_last());
        let before = after_projectiles(zombies, projectiles.drop_last());
        if before.len() > 0 {
            lemma_nearest_exists(located(before), projectiles.last().position);
        }
    }
    assert(located(after_projectiles(zombies, projectiles)) =~= located(zombies));
}

/// The views of the invaders.
pub open spec fn bodies(zombies: Seq<ZombieBody>) -> Seq<ZombieBodyView> {
    zombies.map_values(|z: ZombieBody| z@)
}

/// Resolves the projectiles against the invaders. Each projectile looks for
/// the invader nearest to it and strikes it if it lies in the invader's box.
/// A struck invader takes the damage unless it is invincible. The
/// projectiles are resolved in their order, and each sees the places the
/// invaders have at the start.
pub fn zombie_projectile_damage(projectiles: &Vec<Projectile>, zombies: &mut Vec<ZombieBody>) -> (r:
    Vec<Hit>)
    ensures
        bodies(final(zombies)@) == after_projectiles(bodies(old(zombies)@), projectiles@),
        r@ == hits_of(bodies(old(zombies)@), projectiles@),
{
    let mut hits: Vec<Hit> = Vec::new();
    let mut places: Vec<Located> = Vec::new();
    let mut i: usize = 0;
    while i < zombies.len()
        invariant
            i <= zombies.len(),
            zombies@ == old(zombies)@,
            places@.len() == i,
            forall|j: int| 0 <= j < i ==> (#[trigger] places@[j]) == located(bodies(zombies@))[j],
        decreases zombies.len() - i,
    {
        places.push(Located { position: zombies[i].position, entity: zombies[i].entity });
        i += 1;
    }
    proof {
        assert(places@ =~= located(bodies(old(zombies)@)));
    }
    let index = SpatialIndex::build(places);
    let ghost start = bodies(old(zombies)@);
    let mut k: usize = 0;
    proof {
        assert(bodies(zombies@) =~= after_projectiles(start, projectiles@.take(0)));
    }
    while k < projectiles.len()
        invariant
            k <= projectiles.len(),
            start == bodies(old(zombies)@),
            index.items@ == located(start),
            zombies@.len() == start.len(),
            bodies(zombies@) == after_projectiles(start, projectiles@.take(k as int)),
            hits@ == hits_of(start, projectiles@.take(k as int)),
        decreases projectiles.len() - k,
    {
        let projectile: Projectile = projectiles[k];
        let ghost done = projectiles@.take(k as int);
        let ghost next = projectiles@.take(k as int + 1);
        let ghost now = bodies(zombies@);
        proof {
            assert(next.drop_last() =~= done);
            assert(next.last() == projectile);
            lemma_after_projectiles_places(start, done);
        }
        match index.nearest_index(projectile.position) {
            None => {},
            Some(n) => {
                assert(now[n as int] == zombies@[n as int]@);
                if projectile_strikes(zombies[n].position, projectile.position) {
                    hits.push(Hit { projectile: projectile.entity, zombie: zombies[n].entity });
                    if !zombies[n].invincible {
                        zombies[n].hp.damage(PROJECTILE_DAMAGE);
                        proof {
                            assert(bodies(zombies@) =~= now.update(
                                n as int,
                                ZombieBodyView {
                                    hp: now[n as int].hp.damaged(PROJECTILE_DAMAGE),
                                    ..now[n as int]
                                },
                            ));
                        }
                    }
                }
            },
        }
        k += 1;
    }
    proof {
        assert(projectiles@.take(k as int) =~= projectiles@);
    }
    hits
}

/// An invader busy eating a defender.
#[derive(Clone, Copy, Debug, PartialEq, Eq, Structural)]
pub struct ZombieEatTag {
    /// The defender that is eaten.
    pub target_plant: Entity,
    /// Runs out with every bite.
    pub timer: Countdown,
}

/// The countdown of an invader that starts to eat: it repeats with the bite
/// period and is wound up so that the first bite falls in the next tick.
pub open spec fn bite_timer() -> Countdown {
    Countdown {
        duration: BITE_PERIOD,
        elapsed: BITE_PERIOD,
        mode: TimerMode::Repeating,
        finished: false,
        times_finished_this_tick: 0,
    }
}

/// The first slot listed under `entity`.
pub open spec fn solt_in(solts: Seq<SoltSite>, entity: Entity) -> Option<SoltSite>
    decreases solts.len(),
{
    if solts.len() == 0 {
        None
    } else if solts[0].entity == entity {
        Some(solts[0])
    } else {
        solt_in(solts.subrange(1, solts.len() as int), entity)
    }
}

/// The defender that an invader at `zombie` starts to eat: the defender
/// nearest to it must be within reach; of the slot that this defender stands
/// on, the first occupant in eating order is eaten.
pub open spec fn eat_target(
    zombie: Vec2,
    plant_places: Seq<Located>,
    plants: Seq<PlantTag>,
    solts: Seq<SoltSite>,
) -> Option<Entity> {
    match nearest(plant_places, zombie) {
        None => None,
        Some(found) => if dist2(zombie, found.position) > MELEE_REACH_SQUARED as int {
            None
        } else {
            match tag_in(plants, found.entity) {
                None => None,
                Some(tag) => match solt_in(solts, tag.solt) {
                    None => None,
                    Some(site) => site.solt.first_plant(),
                },
            }
        },
    }
}

/// Looks up a slot by its handle.
pub fn find_solt(solts: &Vec<SoltSite>, entity: Entity) -> (r: Option<usize>)
    ensures
        match r {
            Some(i) => i < solts@.len() && solt_in(solts@, entity) == Some(solts@[i as int]),
            None => solt_in(solts@, entity).is_none(),
        },
{
    let mut i: usize = 0;
    assert(solts@.subrange(0, solts.len() as int) =~= solts@);
    while i < solts.len()
        invariant
            i <= solts.len(),
            solt_in(solts@, entity) == solt_in(solts@.subrange(i as int, solts.len() as int), entity),
        decreases solts.len() - i,
    {
        if solts[i].entity == entity {
            return Some(i);
        }
        proof {
            let rest = solts@.subrange(i as int, solts.len() as int);
            assert(rest.subrange(1, rest.len() as int) =~= solts@.subrange(
                i as int + 1,
                solts.len() as int,
            ));
        }
        i += 1;
    }
    None
}

/// Decides whether an invader at `zombie` that is neither eating nor in its
/// critical phase starts to eat. It does when the defender nearest to it is
/// within reach; it then stops moving and eats the first occupant, in eating
/// order, of that defender's slot.
pub fn check_zombie_eat_start(
    zombie: Vec2,
    plant_index: &SpatialIndex,
    plants: &Vec<PlantTag>,
    solts: &Vec<SoltSite>,
) -> (r: Option<ZombieEatTag>)
    ensures
        r == match eat_target(zombie, plant_index.items@, plants@, solts@) {
            Some(target_plant) => Some(ZombieEatTag { target_plant, timer: bite_timer() }),
            None => None,
        },
{
    let found = match plant_index.nearest_neighbour(zombie) {
        None => {
            return None;
        },
        Some(found) => found,
    };
    if zombie.distance_squared(found.position) > MELEE_REACH_SQUARED {
        return None;
    }
    let tag = match find_tag(plants, found.entity) {
        None => {
            return None;
        },
        Some(tag) => tag,
    };
    let site = match find_solt(solts, tag.solt) {
        None => {
            return None;
        },
        Some(i) => solts[i],
    };
    match site.solt.eaten_first() {
        None => None,
        Some(target_plant) => {
            let mut timer = Countdown::new(BITE_PERIOD, TimerMode::Repeating);
            timer.set_elapsed(BITE_PERIOD);
            Some(ZombieEatTag { target_plant, timer })
        },
    }
}

/// Whether an eating invader is done: the defender it eats is no longer
/// among those that exist. It then goes back to moving.
pub fn check_zombie_eat_end(eat: &ZombieEatTag, alive: &Vec<Entity>) -> (r: bool)
    ensures
        r == !alive@.contains(eat.target_plant),
{
    let mut i: usize = 0;
    while i < alive.len()
        invariant
            i <= alive.len(),
            forall|j: int| 0 <= j < i ==> alive@[j] != eat.target_plant,
        decreases alive.len() - i,
    {
        if alive[i] == eat.target_plant {
            return false;
        }
        i += 1;
    }
    true
}

/// Hurts a defender that is being eaten for `delta` nanoseconds by an
/// invader with the given attack per second.
pub fn update_zombie_eat(delta: u64, attack: i32, plant_hp: &mut PlantHp)
    ensures
        final(plant_hp).0 == clamp_i64(
            old(plant_hp).0 as int - clamp_i64(over_time(attack as int, delta as int)) as int,
        ),
{
    plant_hp.0 = sub_clamped(plant_hp.0, scaled_by_time(attack, delta));
}

/// Advances the bite countdown of an eating invader and says whether a bite
/// falls in this tick: the defender then flinches and the bite is heard.
pub fn update_zombie_eat_timer(delta: u64, eat: &mut ZombieEatTag) -> (r: bool)
    ensures
        final(eat).target_plant == old(eat).target_plant,
        final(eat).timer == old(eat).timer.ticked(delta),
        r == final(eat).timer.spec_just_finished(),
{
    eat.timer.tick(delta);
    eat.timer.just_finished()
}

/// Removes a defender whose health is used up: it is to go, and every role
/// that it held in its slot is empty again. A defender with health left
/// stays where it is.
pub fn update_plant_die(entity: Entity, hp: &PlantHp, solt: &mut PlantSolt) -> (r: bool)
    ensures
        r == (hp.0 <= 0),
        *final(solt) == if r {
            old(solt).without(entity)
        } else {
            *old(solt)
        },
{
    if hp.0 > 0 {
        return false;
    }
    solt.remove(entity);
    true
}

/// Whether `radius` reaches from `centre` to `point`.
pub open spec fn in_blast(centre: Vec2, radius: u32, point: Vec2) -> bool {
    dist2(centre, point) < radius as int * radius as int
}

/// The invaders after an explosion: everyone within the radius has taken the
/// damage, invincible or not.
pub open spec fn after_blast(zombies: Seq<ZombieBodyView>, centre: Vec2, radius: u32, damage: u32) -> Seq<
    ZombieBodyView,
> {
    Seq::new(
        zombies.len(),
        |i: int|
            if in_blast(centre, radius, zombies[i].position) {
                ZombieBodyView { hp: zombies[i].hp.damaged(damage), ..zombies[i] }
            } else {
                zombies[i]
            },
    )
}

/// Lets an explosion at `centre` hurt every invader within its radius.
pub fn apply_effect_explode(centre: Vec2, radius: u32, damage: u32, zombies: &mut Vec<ZombieBody>)
    ensures
        bodies(final(zombies)@) == after_blast(bodies(old(zombies)@), centre, radius, damage),
{
    proof {
        crate::fixed::lemma_mul_bound(radius as int, radius as int, 0x1_0000_0000, 0x1_0000_0000);
    }
    let reach: u128 = (radius as u128) * (radius as u128);
    let mut i: usize = 0;
    while i < zombies.len()
        invariant
            i <= zombies.len(),
            reach == radius as int * radius as int,
            zombies@.len() == old(zombies)@.len(),
            forall|j: int|
                0 <= j < i ==> (#[trigger] zombies@[j])@ == after_blast(
                    bodies(old(zombies)@),
                    centre,
                    radius,
                    damage,
                )[j],
            forall|j: int| i <= j < zombies@.len() ==> (#[trigger] zombies@[j]) == old(zombies)@[j],
        decreases zombies.len() - i,
    {
        if centre.distance_squared(zombies[i].position) < reach {
            zombies[i].hp.damage(damage);
        }
        i += 1;
    }
    proof {
        assert(bodies(zombies@) =~= after_blast(bodies(old(zombies)@), centre, radius, damage));
    }
}

/// Whether an invader has come near enough for a mower to start.
pub open spec fn wakes_car(car: LanePosition, zombie: LanePosition) -> bool {
    car.lane == zombie.lane && car.x as int + CAR_REACH as int >= zombie.x as int
}

/// Whether a running mower mows an invader down.
pub open spec fn mows(car: LanePosition, zombie: LanePosition) -> bool {
    car.lane == zombie.lane && -(CAR_REACH as int) < (zombie.x as int) - (car.x as int) && (
    zombie.x as int) - (car.x as int) < (CAR_REACH as int)
}

/// Decides whether a waiting mower starts: it does when an invader of its
/// lane has come within its reach or got past it, and it then runs down the
/// lane with the returned velocity.
pub fn trigger_cleanup_car(car: &LanePosition, zombies: &Vec<LanePosition>) -> (r: Option<MoveVelocity>)
    ensures
        r == if exists|i: int| 0 <= i < zombies@.len() && wakes_car(*car, #[trigger] zombies@[i]) {
            Some(MoveVelocity(Vec2 { x: CAR_SPEED, y: 0 }))
        } else {
            None
        },
{
    let mut i: usize = 0;
    while i < zombies.len()
        invariant
            i <= zombies.len(),
            forall|j: int| 0 <= j < i ==> !wakes_car(*car, #[trigger] zombies@[j]),
        decreases zombies.len() - i,
    {
        let zombie: LanePosition = zombies[i];
        if car.lane == zombie.lane && (car.x as i64) + (CAR_REACH as i64) >= (zombie.x as i64) {
            assert(wakes_car(*car, zombies@[i as int]));
            return Some(MoveVelocity(Vec2 { x: CAR_SPEED, y: 0 }));
        }
        i += 1;
    }
    None
}

/// Lets a running mower end an invader within reach of its blades.
pub fn cleanup_car_kill_zombie(car: &LanePosition, zombie: &LanePosition, hp: &mut ZombieHp)
    ensures
        final(hp)@ == if mows(*car, *zombie) {
            old(hp)@.killed()
        } else {
            old(hp)@
        },
{
    let gap: i64 = (zombie.x as i64) - (car.x as i64);
    if car.lane == zombie.lane && -(CAR_REACH as i64) < gap && gap < (CAR_REACH as i64) {
        hp.kill();
    }
}

/// Whether a running mower has left the field and is to go.
pub fn remove_outrange_car(position: &LanePosition) -> (r: bool)
    ensures
        r == (position.x > CAR_LIMIT),
{
    position.x > CAR_LIMIT
}

/// Whether the round is lost: an invader that is not in its critical phase
/// has got behind the defense line.
pub fn check_game_over(zombies: &Vec<LanePosition>) -> (r: bool)
    ensures
        r == exists|i: int| 0 <= i < zombies@.len() && (#[trigger] zombies@[i]).x < DEFENSE_LINE,
{
    let mut i: usize = 0;
    while i < zombies.len()
        invariant
            i <= zombies.len(),
            forall|j: int| 0 <= j < i ==> (#[trigger] zombies@[j]).x >= DEFENSE_LINE,
        decreases zombies.len() - i,
    {
        if zombies[i].x < DEFENSE_LINE {
            return true;
        }
        i += 1;
    }
    false
}

} // verus!
