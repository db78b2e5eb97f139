//! Shooting: detection of invaders, reload, and the volley.

use vstd::prelude::*;
use crate::fixed::{add_coord, clamp_i32, lemma_mul_bound};
use crate::geom::{dist2, Vec2};
use crate::plant::{PlantDetect, PlantShoot, ProjectileTrack, ProjectileType, ShootProjectile};
use crate::timer::{Countdown, TimerMode};

verus! {

/// Square of the distance from its ray within which a shooter sees an invader.
pub const RAY_REACH_SQUARED: i128 = 2_500_000_000;

/// Speed of a projectile per thousandth of its direction vector.
pub const PROJECTILE_SPEED: i32 = 500;

/// Reload state of a shooter.
#[derive(Clone, Copy, Debug, PartialEq, Eq, Structural)]
pub struct ProjectileCooldown {
    /// Nanoseconds until the weapon is loaded.
    pub cooldown: u64,
    /// Reload time.
    pub max_cooldown: u64,
}

/// Whether a shooter has an invader in its sights.
#[derive(Clone, Copy, Debug, PartialEq, Eq, Structural)]
pub enum PlantShootTag {
    Standby,
    Shoot,
}

/// Place of an entity along its lane.
#[derive(Clone, Copy, Debug, PartialEq, Eq, Structural)]
pub struct LanePosition {
    pub lane: u8,
    pub x: i32,
}

/// An invader that can be shot at, as a shooter sees it.
#[derive(Clone, Copy, Debug, PartialEq, Eq, Structural)]
pub struct Target {
    pub lane_position: LanePosition,
    pub position: Vec2,
}

/// Whether `point` lies near the ray from `origin` along `(dir_x, dir_y)`:
/// behind the origin its distance to the origin counts, else its distance to
/// the line of the ray.
pub open spec fn near_ray(origin: Vec2, dir_x: i16, dir_y: i16, point: Vec2) -> bool {
    let vx = point.x as int - origin.x as int;
    let vy = point.y as int - origin.y as int;
    let along = vx * dir_x as int + vy * dir_y as int;
    let across = vx * dir_y as int - vy * dir_x as int;
    if along < 0 {
        dist2(point, origin) < RAY_REACH_SQUARED as int
    } else {
        across * across < RAY_REACH_SQUARED as int * (dir_x as int * dir_x as int + dir_y as int
            * dir_y as int)
    }
}

/// Whether a shooter at `origin` on `plant_position` sees an invader.
pub open spec fn detects(detect: PlantDetect, plant_position: LanePosition, origin: Vec2, zombie: Target) -> bool {
    match detect {
        PlantDetect::LaneFront => zombie.lane_position.lane == plant_position.lane
            && zombie.lane_position.x >= plant_position.x,
        PlantDetect::LaneBack => zombie.lane_position.lane == plant_position.lane
            && zombie.lane_position.x <= plant_position.x,
        PlantDetect::Lane => zombie.lane_position.lane == plant_position.lane,
        PlantDetect::Rays { dir_x, dir_y } => near_ray(origin, dir_x, dir_y, zombie.position),
        PlantDetect::Screen => true,
    }
}

/// Whether a shooter sees any of the invaders.
pub open spec fn found_enemy(
    detect: PlantDetect,
    plant_position: LanePosition,
    origin: Vec2,
    zombies: Seq<Target>,
) -> bool {
    exists|i: int| 0 <= i < zombies.len() && detects(detect, plant_position, origin, #[trigger] zombies[i])
}

/// Whether `point` lies near the ray from `origin` along `(dir_x, dir_y)`.
pub fn is_near_ray(origin: Vec2, dir_x: i16, dir_y: i16, point: Vec2) -> (r: bool)
    ensures
        r == near_ray(origin, dir_x, dir_y, point),
{
    let vx: i128 = (point.x as i128) - (origin.x as i128);
    let vy: i128 = (point.y as i128) - (origin.y as i128);
    let dx: i128 = dir_x as i128;
    let dy: i128 = dir_y as i128;
    proof {
        lemma_mul_bound(vx as int, dx as int, 0x1_0000_0000, 0x8000);
        lemma_mul_bound(vy as int, dy as int, 0x1_0000_0000, 0x8000);
        lemma_mul_bound(vx as int, dy as int, 0x1_0000_0000, 0x8000);
        lemma_mul_bound(vy as int, dx as int, 0x1_0000_0000, 0x8000);
        lemma_mul_bound(dx as int, dx as int, 0x8000, 0x8000);
        lemma_mul_bound(dy as int, dy as int, 0x8000, 0x8000);
    }
    let along: i128 = vx * dx + vy * dy;
    if along < 0 {
        point.distance_squared(origin) < 2_500_000_000u128
    } else {
        let across: i128 = vx * dy - vy * dx;
        let norm: i128 = dx * dx + dy * dy;
        proof {
            lemma_mul_bound(across as int, across as int, 0x1_0000_0000_0000, 0x1_0000_0000_0000);
            lemma_mul_bound(RAY_REACH_SQUARED as int, norm as int, 2_500_000_000, 0x8000_0000);
        }
        across * across < RAY_REACH_SQUARED * norm
    }
}

/// Whether a shooter at `origin` on `plant_position` sees an invader.
pub fn sees(detect: &PlantDetect, plant_position: &LanePosition, origin: Vec2, zombie: &Target) -> (r:
    bool)
    ensures
        r == detects(*detect, *plant_position, origin, *zombie),
{
    match detect {
        PlantDetect::LaneFront => zombie.lane_position.lane == plant_position.lane
            && zombie.lane_position.x >= plant_position.x,
        PlantDetect::LaneBack => zombie.lane_position.lane == plant_position.lane
            && zombie.lane_position.x <= plant_position.x,
        PlantDetect::Lane => zombie.lane_position.lane == plant_position.lane,
        PlantDetect::Rays { dir_x, dir_y } => is_near_ray(origin, *dir_x, *dir_y, zombie.position),
        PlantDetect::Screen => true,
    }
}

/// Sets a shooter to shoot while it sees an invader and to stand by while it
/// sees none. A defender without a weapon is left as it is.
pub fn update_plant_shoot_enable(
    detect: Option<PlantDetect>,
    shoot: &mut PlantShootTag,
    plant_position: &LanePosition,
    origin: Vec2,
    zombies: &Vec<Target>,
)
    ensures
        *final(shoot) == match detect {
            None => *old(shoot),
            Some(d) => if found_enemy(d, *plant_position, origin, zombies@) {
                PlantShootTag::Shoot
            } else {
                PlantShootTag::Standby
            },
        },
{
    let d = match detect {
        None => {
            return ;
        },
        Some(d) => d,
    };
    let mut i: usize = 0;
    while i < zombies.len()
        invariant
            i <= zombies.len(),
            detect == Some(d),
            *shoot == *old(shoot),
            forall|j: int| 0 <= j < i ==> !detects(d, *plant_position, origin, #[trigger] zombies@[j]),
        decreases zombies.len() - i,
    {
        if sees(&d, plant_position, origin, &zombies[i]) {
            *shoot = PlantShootTag::Shoot;
            assert(detects(d, *plant_position, origin, zombies@[i as int]));
            return ;
        }
        i += 1;
    }
    *shoot = PlantShootTag::Standby;
}

/// A projectile that a shooter has let go.
#[derive(Clone, Copy, Debug, PartialEq, Eq, Structural)]
pub struct NewProjectile {
    pub projectile_type: ProjectileType,
    pub position: Vec2,
    /// Thousandths of a world unit per second.
    pub velocity: Vec2,
    /// Runs out when the projectile appears and starts to fly; until then
    /// it is hidden and does not move.
    pub delay_show: Countdown,
}

/// Seven tenths of an offset, rounded toward zero: defenders are drawn at
/// that scale.
pub open spec fn scaled_offset(offset: i32) -> int {
    if offset >= 0 {
        (offset * 7) / 10
    } else {
        -(((-offset) * 7) / 10)
    }
}

/// Whether a flight path is one that projectiles can take.
pub open spec fn track_supported(track: ProjectileTrack) -> bool {
    track is Line
}

/// Whether every projectile of a weapon flies a path that projectiles can
/// take.
pub open spec fn weapon_supported(shoot: PlantShoot) -> bool {
    forall|i: int| 0 <= i < shoot.projectiles@.len() ==> track_supported((#[trigger] shoot.projectiles@[i]).track)
}

/// Checks that every projectile of a weapon flies a path that projectiles
/// can take.
pub fn check_weapon_supported(shoot: &PlantShoot) -> (r: bool)
    ensures
        r == weapon_supported(*shoot),
{
    let mut i: usize = 0;
    while i < shoot.projectiles.len()
        invariant
            i <= shoot.projectiles.len(),
            forall|j: int| 0 <= j < i ==> track_supported((#[trigger] shoot.projectiles@[j]).track),
        decreases shoot.projectiles.len() - i,
    {
        let projectile: ShootProjectile = shoot.projectiles[i];
        match projectile.track {
            ProjectileTrack::Line { dir_x, dir_y } => {},
            _ => {
                assert(!track_supported(shoot.projectiles@[i as int].track));
                return false;
            },
        }
        i += 1;
    }
    true
}

/// The velocity along a flight path.
pub open spec fn track_velocity(track: ProjectileTrack) -> Vec2 {
    match track {
        ProjectileTrack::Line { dir_x, dir_y } => Vec2 {
            x: (dir_x as int * PROJECTILE_SPEED as int) as i32,
            y: (dir_y as int * PROJECTILE_SPEED as int) as i32,
        },
        _ => Vec2 { x: 0, y: 0 },
    }
}

/// The projectile that a shooter at `origin` lets go for a configured one.
pub open spec fn projectile_of(projectile: ShootProjectile, origin: Vec2) -> NewProjectile {
    NewProjectile {
        projectile_type: projectile.projectile_type,
        position: Vec2 {
            x: clamp_i32(origin.x as int + scaled_offset(projectile.offset_x)),
            y: clamp_i32(origin.y as int + scaled_offset(projectile.offset_y)),
        },
        velocity: track_velocity(projectile.track),
        delay_show: Countdown::fresh(projectile.shoot_timing, TimerMode::Once),
    }
}

/// The volley of a weapon: one projectile per configured one, in order.
pub open spec fn volley(projectiles: Seq<ShootProjectile>, origin: Vec2) -> Seq<NewProjectile> {
    Seq::new(projectiles.len(), |i: int| projectile_of(projectiles[i], origin))
}

/// What is left of a reload after `delta` nanoseconds.
pub open spec fn reload_left(cooldown: u64, delta: u64) -> u64 {
    if cooldown > delta {
        (cooldown - delta) as u64
    } else {
        0
    }
}

/// Whether a shooter fires in a tick of `delta`: loaded and with an invader
/// in its sights.
pub open spec fn fires(cooldown: ProjectileCooldown, shoot: PlantShootTag, delta: u64) -> bool {
    reload_left(cooldown.cooldown, delta) == 0 && shoot == PlantShootTag::Shoot
}

/// What a tick of a shooter brought.
#[derive(Debug)]
pub struct Volley {
    /// Whether the shooter fired in this tick.
    pub fired: bool,
    pub projectiles: Vec<NewProjectile>,
}

/// Seven tenths of an offset.
fn scale_offset(offset: i32) -> (r: i32)
    ensures
        r == scaled_offset(offset),
{
    let wide: i64 = offset as i64;
    if wide >= 0 {
        ((wide * 7) / 10) as i32
    } else {
        (0 - (((0 - wide) * 7) / 10)) as i32
    }
}

/// The projectile that a shooter at `origin` lets go for a configured one.
pub fn launch_projectile(projectile: &ShootProjectile, origin: Vec2) -> (r: NewProjectile)
    requires
        track_supported(projectile.track),
    ensures
        r == projectile_of(*projectile, origin),
{
    let velocity = match projectile.track {
        ProjectileTrack::Line { dir_x, dir_y } => Vec2 {
            x: (dir_x as i32) * PROJECTILE_SPEED,
            y: (dir_y as i32) * PROJECTILE_SPEED,
        },
        _ => Vec2 { x: 0, y: 0 },
    };
    NewProjectile {
        projectile_type: projectile.projectile_type,
        position: Vec2 {
            x: add_coord(origin.x, scale_offset(projectile.offset_x)),
            y: add_coord(origin.y, scale_offset(projectile.offset_y)),
        },
        velocity,
        delay_show: Countdown::new(projectile.shoot_timing, TimerMode::Once),
    }
}

/// One tick of a shooter at `origin`. The reload counts down to zero. A
/// loaded shooter with an invader in its sights fires its whole volley and
/// reloads; else nothing is fired.
pub fn plant_shoot(
    delta: u64,
    cooldown: &mut ProjectileCooldown,
    shoot_tag: PlantShootTag,
    shoot: &PlantShoot,
    origin: Vec2,
) -> (r: Volley)
    requires
        weapon_supported(*shoot),
    ensures
        r.fired == fires(*old(cooldown), shoot_tag, delta),
        final(cooldown).max_cooldown == old(cooldown).max_cooldown,
        final(cooldown).cooldown == if r.fired {
            old(cooldown).max_cooldown
        } else {
            reload_left(old(cooldown).cooldown, delta)
        },
        r.projectiles@ == if r.fired {
            volley(shoot.projectiles@, origin)
        } else {
            Seq::<NewProjectile>::empty()
        },
{
    let mut projectiles: Vec<NewProjectile> = Vec::new();
    let left: u64 = if cooldown.cooldown > delta {
        cooldown.cooldown - delta
    } else {
        0
    };
    let aiming = match shoot_tag {
        PlantShootTag::Shoot => true,
        PlantShootTag::Standby => false,
    };
    if left > 0 || !aiming {
        cooldown.cooldown = left;
        proof {
            assert(projectiles@ =~= Seq::<NewProjectile>::empty());
        }
        return Volley { fired: false, projectiles };
    }
    cooldown.cooldown = cooldown.max_cooldown;
    let mut i: usize = 0;
    while i < shoot.projectiles.len()
        invariant
            i <= shoot.projectiles.len(),
            weapon_supported(*shoot),
            projectiles@.len() == i,
            forall|j: int| 0 <= j < i ==> (#[trigger] projectiles@[j]) == projectile_of(shoot.projectiles@[j], origin),
        decreases shoot.projectiles.len() - i,
    {
        let configured: ShootProjectile = shoot.projectiles[i];
        assert(track_supported(shoot.projectiles@[i as int].track));
        projectiles.push(launch_projectile(&configured, origin));
        i += 1;
    }
    proof {
        assert(projectiles@ =~= volley(shoot.projectiles@, origin));
    }
    Volley { fired: true, projectiles }
}

} // verus!
