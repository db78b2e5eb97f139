use pvz_core::anim::{Transform, Vec3};
use pvz_core::button::{
    edge_crosses, update_background, update_interaction, ButtonBackground, ButtonEnabled,
    ButtonHotspot, ButtonInteraction,
};
use pvz_core::chooser::{
    count_chosen, hovered_at, input_giveup_seed, input_select_seed, preplaced_transform,
    setup_seedbank, start_game_button, update_seed_hover, update_start_button_enabled,
    ChooserSeed, SeedPlace,
};
use pvz_core::anim::Slide;
use pvz_core::field::{
    lanes, new_sod_lanes, setup_cleanup_car, setup_plant_solt, setup_zombie_solt, CleanerCar, Lane,
    SoltPlace, ZombieSoltPlace,
};
use pvz_core::level::{Level, LevelRegistry, LevelType};
use pvz_core::plant::{PlantInfo, PlantOn, PlantPosition, PlantRegistry};
use pvz_core::fixed::{
    add_clamped, add_coord, add_time, halved, lerp, negated, rate_between, scaled_by_time,
    sub_clamped, to_coord,
};
use pvz_core::geom::{Rect, Vec2};
use pvz_core::instant::{update_plant_instant_timer, PlantInstantTag};
use pvz_core::level::{LevelBackground, SodType, WaveType};
use pvz_core::music::MainMusicTable;
use pvz_core::plant::{
    InstantEffect, InstantEffectType, PlantDetect, PlantHp, PlantInstant, PlantShoot, PlantType,
    ProjectileTrack, ProjectileType, SeedHover, ShootProjectile,
};
use pvz_core::planting::SoltSite;
use pvz_core::progress::raise_flag;
use pvz_core::round::{fade_slide, move_camera, setup_exit_reward_anim, trigger_fade_in_cars};
use pvz_core::shoot::{
    check_weapon_supported, is_near_ray, launch_projectile, plant_shoot, sees, update_plant_shoot_enable, LanePosition,
    PlantShootTag, ProjectileCooldown, Target,
};
use pvz_core::solt::{PlantSolt, SoltType};
use pvz_core::timeline::{setup_start_game_timer, GameTimerTag};
use pvz_core::timer::{Countdown, TimerMode};

const S: u64 = 1_000_000_000;
const ONE: Vec3 = Vec3 { x: 1_000, y: 1_000, z: 1_000 };

fn day(sod_type: SodType, upgrade_sod_type: bool) -> LevelBackground {
    LevelBackground::Day { sod_type, upgrade_sod_type }
}

fn lane_numbers(background: &LevelBackground) -> Vec<u8> {
    lanes(background).iter().map(|l| l.lane).collect()
}

#[test]
fn day_lawn_has_as_many_lanes_as_rows_of_sod() {
    assert_eq!(lane_numbers(&day(SodType::Bare, false)), Vec::<u8>::new());
    assert_eq!(lane_numbers(&day(SodType::Bare, true)), vec![2]);
    assert_eq!(lane_numbers(&day(SodType::SodRow1, false)), vec![2]);
    assert_eq!(lane_numbers(&day(SodType::SodRow1, true)), vec![1, 2, 3]);
    assert_eq!(lane_numbers(&day(SodType::SodRow3, false)), vec![1, 2, 3]);
    assert_eq!(lane_numbers(&day(SodType::SodRow3, true)), vec![0, 1, 2, 3, 4]);
    assert_eq!(lane_numbers(&day(SodType::SodRow5, false)), vec![0, 1, 2, 3, 4]);
    assert_eq!(lane_numbers(&day(SodType::SodRow5, true)), vec![0, 1, 2, 3, 4]);
    assert!(lanes(&day(SodType::SodRow5, true)).iter().all(|l| l.solt_type == SoltType::Dirt));
    assert_eq!(SodType::default(), SodType::SodRow5);
    assert_eq!(WaveType::default(), WaveType::Normal);
}

#[test]
fn growing_lawn_lays_the_rows_it_lacked() {
    assert_eq!(new_sod_lanes(SodType::Bare), vec![2]);
    assert_eq!(new_sod_lanes(SodType::SodRow1), vec![1, 3]);
    assert_eq!(new_sod_lanes(SodType::SodRow3), vec![0, 4]);
    assert!(new_sod_lanes(SodType::SodRow5).is_empty());
}

#[test]
fn registries_hand_out_the_first_definition() {
    let plant = |id: PlantType, cost: u32| PlantInfo {
        id,
        sunshine: cost,
        cooldown: 0,
        hp: 200_000,
        damage_skin: false,
        position: PlantPosition::Primary,
        plant_on: PlantOn::default(),
        shoot: None,
        produce: None,
        instant: None,
    };
    let plants = PlantRegistry(vec![plant(PlantType::PeaShooter, 100), plant(PlantType::Sunflower, 50), plant(PlantType::PeaShooter, 1)]);
    assert_eq!(plants.get(PlantType::PeaShooter).unwrap().sunshine, 100);
    assert_eq!(plants.get(PlantType::Sunflower).unwrap().sunshine, 50);
    assert!(plants.get(PlantType::WallNut).is_none());
    let level = |id: LevelType, sunshine: u32| Level {
        id,
        background: LevelBackground::Night,
        sunshine,
        nature_sunshine: false,
        first_wave_time: 0,
        reward: None,
        preview_zombies: vec![],
        waves: vec![],
    };
    let levels = LevelRegistry(vec![level(LevelType::Adventure { level: 1 }, 50), level(LevelType::PlantZombie, 75)]);
    assert_eq!(levels.get(LevelType::PlantZombie).unwrap().sunshine, 75);
    assert_eq!(levels.get(LevelType::Adventure { level: 1 }).unwrap().sunshine, 50);
    assert!(levels.get(LevelType::Adventure { level: 2 }).is_none());
}

#[test]
fn pool_has_two_lanes_of_water_in_the_middle() {
    for bg in [LevelBackground::Swim, LevelBackground::SwimFog] {
        assert_eq!(
            lanes(&bg),
            vec![
                Lane { lane: 0, solt_type: SoltType::Dirt },
                Lane { lane: 1, solt_type: SoltType::Dirt },
                Lane { lane: 2, solt_type: SoltType::River },
                Lane { lane: 3, solt_type: SoltType::River },
                Lane { lane: 4, solt_type: SoltType::Dirt },
                Lane { lane: 5, solt_type: SoltType::Dirt },
            ]
        );
    }
    assert!(lanes(&LevelBackground::Roof).iter().all(|l| l.solt_type == SoltType::Roof));
    assert_eq!(lane_numbers(&LevelBackground::RoofNight), vec![0, 1, 2, 3, 4]);
    assert_eq!(lane_numbers(&LevelBackground::Night), vec![0, 1, 2, 3, 4]);
}

#[test]
fn field_has_nine_slots_a_lane() {
    let places = setup_plant_solt(&LevelBackground::Swim);
    assert_eq!(places.len(), 54);
    assert_eq!(
        places[0],
        SoltPlace { solt: PlantSolt::new(SoltType::Dirt), position: Vec2 { x: -320_000, y: -220_000 }, lane: 0 }
    );
    assert_eq!(
        places[8],
        SoltPlace { solt: PlantSolt::new(SoltType::Dirt), position: Vec2 { x: 320_000, y: -220_000 }, lane: 0 }
    );
    assert_eq!(
        places[2 * 9 + 3],
        SoltPlace { solt: PlantSolt::new(SoltType::River), position: Vec2 { x: -80_000, y: -20_000 }, lane: 2 }
    );
    assert_eq!(places[53].position, Vec2 { x: 320_000, y: 280_000 });
    let one = setup_plant_solt(&day(SodType::SodRow1, false));
    assert_eq!(one.len(), 9);
    assert!(one.iter().all(|p| p.lane == 2 && p.position.y == -20_000));
    assert!(setup_plant_solt(&day(SodType::Bare, false)).is_empty());
    let site = SoltSite::new(5, &one[1]);
    assert_eq!(site.entity, 5);
    assert_eq!(site.position, Vec2 { x: -240_000, y: -20_000 });
    assert_eq!(site.lane_position(), LanePosition { lane: 2, x: -240_000 });
}

#[test]
fn invaders_enter_at_the_far_end_of_every_lane() {
    let places = setup_zombie_solt(&LevelBackground::Swim);
    assert_eq!(places.len(), 6);
    assert_eq!(places[0], ZombieSoltPlace { solt_type: SoltType::Dirt, position: Vec2 { x: 500_000, y: -235_000 }, lane: 0 });
    assert_eq!(places[3], ZombieSoltPlace { solt_type: SoltType::River, position: Vec2 { x: 500_000, y: 65_000 }, lane: 3 });
    let roof = setup_zombie_solt(&LevelBackground::Roof);
    assert_eq!(roof.len(), 5);
    assert!(roof.iter().all(|p| p.solt_type == SoltType::Roof));
    assert_eq!(
        setup_cleanup_car(&day(SodType::SodRow1, true)),
        vec![CleanerCar { lane: 1 }, CleanerCar { lane: 2 }, CleanerCar { lane: 3 }]
    );
    assert_eq!(setup_cleanup_car(&LevelBackground::SwimFog).len(), 6);
}

#[test]
fn fixed_point_helpers_round_toward_zero_and_saturate() {
    assert_eq!(scaled_by_time(1_000, S), 1_000);
    assert_eq!(scaled_by_time(-1_000, S / 3), -333);
    assert_eq!(scaled_by_time(1_000, S / 3), 333);
    assert_eq!(scaled_by_time(0, u64::MAX), 0);
    assert_eq!(scaled_by_time(i32::MAX, u64::MAX), i64::MAX);
    assert_eq!(scaled_by_time(i32::MIN, u64::MAX), i64::MIN);
    assert_eq!(scaled_by_time(1, 999_999_999), 0);
    assert_eq!(add_clamped(5, -7), -2);
    assert_eq!(add_clamped(i32::MAX, 1), i32::MAX);
    assert_eq!(add_clamped(i32::MIN, i64::MIN), i32::MIN);
    assert_eq!(add_coord(i32::MIN, -1), i32::MIN);
    assert_eq!(sub_clamped(i64::MIN, 1), i64::MIN);
    assert_eq!(sub_clamped(i64::MAX, -1), i64::MAX);
    assert_eq!(sub_clamped(10, 3), 7);
    assert_eq!(add_time(u64::MAX, 1), u64::MAX);
    assert_eq!(add_time(2, 3), 5);
    assert_eq!(negated(i32::MIN), i32::MAX);
    assert_eq!(negated(5), -5);
    assert_eq!(halved(-5), -2);
    assert_eq!(halved(5), 2);
    assert_eq!(halved(i64::MIN), i64::MIN / 2);
    assert_eq!(to_coord(1 << 40), i32::MAX);
    assert_eq!(to_coord(-(1 << 40)), i32::MIN);
    assert_eq!(to_coord(-7), -7);
    assert_eq!(rate_between(0, 10, S / 2), 20);
    assert_eq!(rate_between(10, 0, 3 * S), -3);
    assert_eq!(lerp(0, 10, 1, 3), 3);
    assert_eq!(lerp(10, 0, 1, 3), 7);
    assert_eq!(lerp(i32::MIN, i32::MAX, u64::MAX, u64::MAX), i32::MAX);
    assert_eq!(lerp(i32::MIN, i32::MAX, 0, u64::MAX), i32::MIN);
    assert_eq!(lerp(i32::MAX, i32::MIN, 1, 2), 0);
    assert_eq!(lerp(-4, -4, 1, 2), -4);
}

fn target(lane: u8, x: i32, y: i32) -> Target {
    Target { lane_position: LanePosition { lane, x }, position: Vec2 { x, y } }
}

#[test]
fn shooters_look_along_their_lane() {
    let plant = LanePosition { lane: 2, x: 0 };
    let origin = Vec2 { x: 0, y: -35_000 };
    assert!(sees(&PlantDetect::LaneFront, &plant, origin, &target(2, 0, 0)));
    assert!(sees(&PlantDetect::LaneFront, &plant, origin, &target(2, 300_000, 0)));
    assert!(!sees(&PlantDetect::LaneFront, &plant, origin, &target(2, -1, 0)));
    assert!(!sees(&PlantDetect::LaneFront, &plant, origin, &target(3, 300_000, 0)));
    assert!(sees(&PlantDetect::LaneBack, &plant, origin, &target(2, -1, 0)));
    assert!(!sees(&PlantDetect::LaneBack, &plant, origin, &target(2, 1, 0)));
    assert!(sees(&PlantDetect::Lane, &plant, origin, &target(2, -400_000, 0)));
    assert!(!sees(&PlantDetect::Lane, &plant, origin, &target(1, 0, 0)));
    assert!(sees(&PlantDetect::Screen, &plant, origin, &target(0, 7, 7)));
}

#[test]
fn ray_sees_what_lies_within_fifty_units_of_it() {
    let o = Vec2 { x: 0, y: 0 };
    // along +x
    assert!(is_near_ray(o, 1000, 0, Vec2 { x: 400_000, y: 49_999 }));
    assert!(!is_near_ray(o, 1000, 0, Vec2 { x: 400_000, y: 50_000 }));
    assert!(is_near_ray(o, 1000, 0, Vec2 { x: 400_000, y: -49_999 }));
    // behind the origin the distance to the origin counts
    assert!(is_near_ray(o, 1000, 0, Vec2 { x: -30_000, y: 39_999 }));
    assert!(!is_near_ray(o, 1000, 0, Vec2 { x: -30_000, y: 40_000 }));
    // along the diagonal, with a direction of another length
    assert!(is_near_ray(o, 3, 3, Vec2 { x: 200_000, y: 200_000 }));
    assert!(is_near_ray(o, 707, 707, Vec2 { x: 200_000, y: 270_000 }));
    assert!(!is_near_ray(o, 707, 707, Vec2 { x: 200_000, y: 271_000 }));
    assert!(!is_near_ray(o, 0, 0, Vec2 { x: 0, y: 0 }));
    assert!(is_near_ray(Vec2 { x: i32::MIN, y: i32::MIN }, i16::MAX, i16::MAX, Vec2 { x: i32::MAX, y: i32::MAX }));
    assert!(!is_near_ray(Vec2 { x: i32::MIN, y: i32::MIN }, i16::MIN, i16::MAX, Vec2 { x: i32::MAX, y: i32::MAX }));
}

#[test]
fn shooter_aims_while_it_sees_someone() {
    let plant = LanePosition { lane: 2, x: 0 };
    let origin = Vec2 { x: 0, y: 0 };
    let zombies = vec![target(1, 100_000, 0), target(2, 100_000, 0)];
    let mut tag = PlantShootTag::Standby;
    update_plant_shoot_enable(Some(PlantDetect::LaneFront), &mut tag, &plant, origin, &zombies);
    assert_eq!(tag, PlantShootTag::Shoot);
    update_plant_shoot_enable(Some(PlantDetect::LaneBack), &mut tag, &plant, origin, &zombies);
    assert_eq!(tag, PlantShootTag::Standby);
    update_plant_shoot_enable(Some(PlantDetect::Screen), &mut tag, &plant, origin, &Vec::new());
    assert_eq!(tag, PlantShootTag::Standby);
    tag = PlantShootTag::Shoot;
    update_plant_shoot_enable(None, &mut tag, &plant, origin, &Vec::new());
    assert_eq!(tag, PlantShootTag::Shoot);
}

fn peashooter() -> PlantShoot {
    PlantShoot {
        detect: PlantDetect::LaneFront,
        shoot_cooldown: 3 * S / 2,
        projectiles: vec![
            ShootProjectile { projectile_type: ProjectileType::Pea, track: ProjectileTrack::Line { dir_x: 1000, dir_y: 0 }, shoot_timing: S / 4, offset_x: 30_000, offset_y: 45_000 },
            ShootProjectile { projectile_type: ProjectileType::Star, track: ProjectileTrack::Line { dir_x: -707, dir_y: 707 }, shoot_timing: 0, offset_x: -15, offset_y: 0 },
        ],
    }
}

#[test]
fn only_straight_flight_is_supported() {
    let mut weapon = peashooter();
    assert!(check_weapon_supported(&weapon));
    weapon.projectiles[1].track = ProjectileTrack::Throw;
    assert!(!check_weapon_supported(&weapon));
    weapon.projectiles[1].track = ProjectileTrack::Follow;
    assert!(!check_weapon_supported(&weapon));
    weapon.projectiles.clear();
    assert!(check_weapon_supported(&weapon));
}

#[test]
fn loaded_shooter_fires_its_volley_and_reloads() {
    let weapon = peashooter();
    let origin = Vec2 { x: -240_000, y: -135_000 };
    let mut cooldown = ProjectileCooldown { cooldown: S, max_cooldown: 3 * S / 2 };
    let out = plant_shoot(S / 2, &mut cooldown, PlantShootTag::Shoot, &weapon, origin);
    assert!(!out.fired);
    assert!(out.projectiles.is_empty());
    assert_eq!(cooldown.cooldown, S / 2);
    // loaded, but no one in sight
    let out = plant_shoot(S, &mut cooldown, PlantShootTag::Standby, &weapon, origin);
    assert!(!out.fired);
    assert_eq!(cooldown.cooldown, 0);
    let out = plant_shoot(0, &mut cooldown, PlantShootTag::Shoot, &weapon, origin);
    assert!(out.fired);
    assert_eq!(cooldown, ProjectileCooldown { cooldown: 3 * S / 2, max_cooldown: 3 * S / 2 });
    assert_eq!(out.projectiles.len(), 2);
    let pea = out.projectiles[0];
    assert_eq!(pea.projectile_type, ProjectileType::Pea);
    assert_eq!(pea.position, Vec2 { x: -240_000 + 21_000, y: -135_000 + 31_500 });
    assert_eq!(pea.velocity, Vec2 { x: 500_000, y: 0 });
    assert_eq!(pea.delay_show, Countdown::new(S / 4, TimerMode::Once));
    let star = out.projectiles[1];
    assert_eq!(star.position, Vec2 { x: -240_010, y: -135_000 });
    assert_eq!(star.velocity, Vec2 { x: -353_500, y: 353_500 });
    assert_eq!(star, launch_projectile(&weapon.projectiles[1], origin));
}

#[test]
fn instant_defender_acts_and_goes() {
    let config = PlantInstant {
        anim_time: S,
        invincible: true,
        effects: vec![
            InstantEffect { effect_type: InstantEffectType::Explode { radius: 150_000, damage: 1_800_000 }, effect_time: S / 2, particle: None },
            InstantEffect { effect_type: InstantEffectType::Explode { radius: 1, damage: 1 }, effect_time: S, particle: None },
            InstantEffect { effect_type: InstantEffectType::Explode { radius: 2, damage: 2 }, effect_time: S / 2, particle: None },
        ],
    };
    let mut tag = PlantInstantTag::new(&config);
    let mut hp = PlantHp(200_000);
    assert!(update_plant_instant_timer(S / 4, &mut tag, &mut hp).is_empty());
    assert_eq!(hp, PlantHp(200_000));
    assert_eq!(update_plant_instant_timer(S / 4, &mut tag, &mut hp), vec![0, 2]);
    assert_eq!(hp, PlantHp(200_000));
    assert_eq!(update_plant_instant_timer(S / 2, &mut tag, &mut hp), vec![1]);
    assert_eq!(hp, PlantHp(0));
    // with its health used up it is left alone
    let before = tag.effect_timer.clone();
    assert!(update_plant_instant_timer(S, &mut tag, &mut hp).is_empty());
    assert_eq!(tag.effect_timer, before);
}

#[test]
fn button_answers_the_pointer() {
    let mut i = ButtonInteraction::default();
    let e = ButtonEnabled::default();
    update_interaction(&mut i, e, false, true, false);
    assert_eq!(i, ButtonInteraction::Idle);
    update_interaction(&mut i, e, true, true, false);
    assert_eq!(i, ButtonInteraction::Hover);
    update_interaction(&mut i, e, true, false, false);
    assert_eq!(i, ButtonInteraction::Hover);
    update_interaction(&mut i, e, true, true, false);
    assert_eq!(i, ButtonInteraction::Pressed);
    update_interaction(&mut i, e, true, false, false);
    assert_eq!(i, ButtonInteraction::Pressed);
    update_interaction(&mut i, e, true, false, true);
    assert_eq!(i, ButtonInteraction::Click);
    update_interaction(&mut i, e, true, false, false);
    assert_eq!(i, ButtonInteraction::Hover);
    update_interaction(&mut i, e, false, false, false);
    assert_eq!(i, ButtonInteraction::Idle);
    i = ButtonInteraction::Pressed;
    update_interaction(&mut i, e, false, false, true);
    assert_eq!(i, ButtonInteraction::Cancel);
    update_interaction(&mut i, e, true, true, false);
    assert_eq!(i, ButtonInteraction::Cancel);
    update_interaction(&mut i, e, true, false, true);
    assert_eq!(i, ButtonInteraction::Idle);
    i = ButtonInteraction::Click;
    update_interaction(&mut i, e, false, false, false);
    assert_eq!(i, ButtonInteraction::Idle);
    i = ButtonInteraction::Pressed;
    update_interaction(&mut i, ButtonEnabled::Disabled, true, true, true);
    assert_eq!(i, ButtonInteraction::Idle);
    assert_eq!(update_background(&ButtonInteraction::Click, &ButtonEnabled::Enabled), ButtonBackground::Hover);
    assert_eq!(update_background(&ButtonInteraction::Cancel, &ButtonEnabled::Enabled), ButtonBackground::Normal);
    assert_eq!(update_background(&ButtonInteraction::Pressed, &ButtonEnabled::Enabled), ButtonBackground::Pressed);
    assert_eq!(update_background(&ButtonInteraction::Pressed, &ButtonEnabled::Disabled), ButtonBackground::Disabled);
}

#[test]
fn hotspot_holds_points_of_its_rectangles_or_polygon() {
    assert!(!ButtonHotspot::Empty.contains(Vec2 { x: 0, y: 0 }));
    let rects = ButtonHotspot::Rects(vec![
        Rect { min: Vec2 { x: 0, y: 0 }, max: Vec2 { x: 10, y: 10 } },
        Rect { min: Vec2 { x: 20, y: 0 }, max: Vec2 { x: 30, y: 10 } },
    ]);
    assert!(rects.contains(Vec2 { x: 10, y: 10 }));
    assert!(rects.contains(Vec2 { x: 25, y: 5 }));
    assert!(!rects.contains(Vec2 { x: 15, y: 5 }));
    assert!(!ButtonHotspot::Rects(vec![]).contains(Vec2 { x: 0, y: 0 }));
    let triangle = ButtonHotspot::Polygon(vec![Vec2 { x: 0, y: 0 }, Vec2 { x: 100, y: 0 }, Vec2 { x: 0, y: 100 }]);
    assert!(triangle.contains(Vec2 { x: 10, y: 10 }));
    assert!(triangle.contains(Vec2 { x: 49, y: 50 }));
    assert!(!triangle.contains(Vec2 { x: 51, y: 50 }));
    assert!(!triangle.contains(Vec2 { x: -1, y: 10 }));
    assert!(!triangle.contains(Vec2 { x: 10, y: 101 }));
    assert!(!triangle.contains(Vec2 { x: 10, y: -1 }));
    assert!(!ButtonHotspot::Polygon(vec![]).contains(Vec2 { x: 0, y: 0 }));
    // a dented shape: the notch is outside
    let dented = ButtonHotspot::Polygon(vec![
        Vec2 { x: 0, y: 0 },
        Vec2 { x: 100, y: 0 },
        Vec2 { x: 100, y: 100 },
        Vec2 { x: 50, y: 20 },
        Vec2 { x: 0, y: 100 },
    ]);
    assert!(dented.contains(Vec2 { x: 50, y: 10 }));
    assert!(!dented.contains(Vec2 { x: 50, y: 60 }));
    assert!(dented.contains(Vec2 { x: 90, y: 60 }));
    assert!(edge_crosses(Vec2 { x: 10, y: -5 }, Vec2 { x: 10, y: 5 }, Vec2 { x: 0, y: 0 }));
    assert!(!edge_crosses(Vec2 { x: -10, y: -5 }, Vec2 { x: -10, y: 5 }, Vec2 { x: 0, y: 0 }));
    assert!(!edge_crosses(Vec2 { x: 10, y: 1 }, Vec2 { x: 10, y: 5 }, Vec2 { x: 0, y: 0 }));
}

fn seed(entity: u64, place: SeedPlace, hover: SeedHover, x: i32) -> ChooserSeed {
    ChooserSeed {
        entity,
        place,
        hover,
        transform: Transform { translation: Vec3 { x, y: 257_000, z: 1_900 }, scale: ONE },
        box_transform: Transform { translation: Vec3 { x: entity as i32, y: -100_000, z: 1_000 }, scale: ONE },
    }
}

#[test]
fn seed_is_chosen_while_the_bank_has_room() {
    let mut seeds = vec![
        seed(1, SeedPlace::Bank, SeedHover::Away, -287_500),
        seed(2, SeedPlace::Chooser, SeedHover::Away, 0),
        seed(3, SeedPlace::Chooser, SeedHover::Hover, 0),
    ];
    assert_eq!(count_chosen(&seeds), 1);
    assert_eq!(hovered_at(&seeds, SeedPlace::Chooser), Some(2));
    assert_eq!(hovered_at(&seeds, SeedPlace::Bank), None);
    assert_eq!(update_start_button_enabled(&seeds, 2), ButtonEnabled::Disabled);
    assert_eq!(input_select_seed(false, &mut seeds, 2), None);
    let slide = input_select_seed(true, &mut seeds, 2).unwrap();
    assert_eq!(
        slide,
        Slide {
            entity: 3,
            from: seeds[2].box_transform,
            to: Transform { translation: Vec3 { x: -232_500, y: 257_000, z: 1_900 }, scale: ONE }
        }
    );
    assert_eq!(seeds[2].place, SeedPlace::Bank);
    assert_eq!(update_start_button_enabled(&seeds, 2), ButtonEnabled::Enabled);
    // the bank is full now
    seeds[1].hover = SeedHover::Hover;
    assert_eq!(input_select_seed(true, &mut seeds, 2), None);
    assert_eq!(seeds[1].place, SeedPlace::Chooser);
}

#[test]
fn given_up_seed_goes_back_and_the_others_close_up() {
    let mut seeds = vec![
        seed(1, SeedPlace::Bank, SeedHover::Away, -287_500),
        seed(2, SeedPlace::Bank, SeedHover::Hover, -232_500),
        seed(3, SeedPlace::Chooser, SeedHover::Away, 500_000),
        seed(4, SeedPlace::Bank, SeedHover::Away, -177_500),
    ];
    assert!(input_giveup_seed(false, &mut seeds).is_empty());
    let slides = input_giveup_seed(true, &mut seeds);
    assert_eq!(slides.len(), 2);
    assert_eq!(slides[0], Slide { entity: 2, from: seeds[1].transform, to: seeds[1].box_transform });
    assert_eq!(slides[1].entity, 4);
    assert_eq!(slides[1].from, seeds[3].transform);
    assert_eq!(slides[1].to.translation, Vec3 { x: -232_500, y: 257_000, z: 1_900 });
    assert_eq!(seeds[1].place, SeedPlace::Chooser);
    assert_eq!(count_chosen(&seeds), 2);
    seeds[1].hover = SeedHover::Away;
    assert!(input_giveup_seed(true, &mut seeds).is_empty());
}

#[test]
fn round_starts_on_a_click_with_a_full_bank() {
    let seeds = vec![seed(1, SeedPlace::Bank, SeedHover::Away, 0), seed(2, SeedPlace::Chooser, SeedHover::Away, 0)];
    let mut enabled = ButtonEnabled::Enabled;
    assert!(start_game_button(&ButtonInteraction::Hover, &mut enabled, &seeds, 1).is_empty());
    assert!(start_game_button(&ButtonInteraction::Click, &mut enabled, &seeds, 2).is_empty());
    assert_eq!(enabled, ButtonEnabled::Enabled);
    assert_eq!(start_game_button(&ButtonInteraction::Click, &mut enabled, &seeds, 1), setup_start_game_timer());
    assert_eq!(enabled, ButtonEnabled::Disabled);
}

#[test]
fn pointer_is_over_the_topmost_card() {
    let places = vec![
        Vec3 { x: 0, y: 0, z: 1 },
        Vec3 { x: 10_000, y: 0, z: 5 },
        Vec3 { x: 20_000, y: 0, z: 5 },
        Vec3 { x: 200_000, y: 0, z: 9 },
    ];
    assert_eq!(update_seed_hover(&places, Vec2 { x: 12_000, y: 35_000 }), Some(2));
    assert_eq!(update_seed_hover(&places, Vec2 { x: -20_000, y: 0 }), Some(0));
    assert_eq!(update_seed_hover(&places, Vec2 { x: -14_000, y: 0 }), Some(1));
    assert_eq!(update_seed_hover(&places, Vec2 { x: 12_000, y: 35_001 }), None);
    assert_eq!(update_seed_hover(&places, Vec2 { x: 225_000, y: -35_000 }), Some(3));
    assert_eq!(update_seed_hover(&Vec::new(), Vec2 { x: 0, y: 0 }), None);
}

#[test]
fn preplaced_seeds_lie_in_almanac_order() {
    let unlocked = vec![PlantType::WallNut, PlantType::PeaShooter, PlantType::CherryBomb, PlantType::GiantWallNut];
    assert_eq!(
        setup_seedbank(&unlocked),
        vec![PlantType::PeaShooter, PlantType::CherryBomb, PlantType::WallNut, PlantType::GiantWallNut]
    );
    assert!(setup_seedbank(&Vec::new()).is_empty());
    assert_eq!(setup_seedbank(&vec![PlantType::Sunflower, PlantType::Sunflower]), vec![PlantType::Sunflower]);
    assert_eq!(preplaced_transform(0).translation, Vec3 { x: -287_500, y: 257_000, z: 1_100 });
    assert_eq!(preplaced_transform(2).translation, Vec3 { x: -177_500, y: 257_000, z: 1_100 });
    assert_eq!(preplaced_transform(usize::MAX).translation.x, i32::MAX);
    assert_eq!(PlantType::PeaShooter.ordinal(), 0);
    assert_eq!(PlantType::GiantWallNut.ordinal(), 50);
    assert_eq!(PlantType::from_ordinal(16), Some(PlantType::LilyPad));
    assert_eq!(PlantType::from_ordinal(51), None);
    for n in 0..51u8 {
        assert_eq!(PlantType::from_ordinal(n).unwrap().ordinal(), n);
    }
}

#[test]
fn tunes_begin_at_their_places() {
    assert_eq!(u8::from(MainMusicTable::Grasswalk), 0x00);
    assert_eq!(u8::from(MainMusicTable::Moongrains), 0x30);
    assert_eq!(u8::from(MainMusicTable::WateryGraves), 0x5E);
    assert_eq!(u8::from(MainMusicTable::ChooseYourSeeds), 0x7A);
    assert_eq!(u8::from(MainMusicTable::RigorMormist), 0x7D);
    assert_eq!(u8::from(MainMusicTable::Title), 0x98);
    assert_eq!(u8::from(MainMusicTable::BrainiacManiac), 0x9E);
    assert_eq!(u8::from(MainMusicTable::Loonboon), 0xA6);
    assert_eq!(u8::from(MainMusicTable::Cerebrawl), 0xB1);
    assert_eq!(u8::from(MainMusicTable::GrazeTheRoof), 0xB8);
    assert_eq!(u8::from(MainMusicTable::UltimateBattle), 0xD4);
    assert_eq!(u8::from(MainMusicTable::ZenGarden), 0xDD);
}

#[test]
fn camera_and_fades_slide_as_cued() {
    let from = Transform { translation: Vec3 { x: -220_000, y: 0, z: 0 }, scale: ONE };
    assert_eq!(
        move_camera(GameTimerTag::CameraToRightAnim, 1, from),
        Some(Slide { entity: 1, from, to: Transform { translation: Vec3 { x: 380_000, y: 0, z: 0 }, scale: ONE } })
    );
    assert_eq!(move_camera(GameTimerTag::CameraToCenterAnim, 1, from).unwrap().to.translation.x, 0);
    assert_eq!(move_camera(GameTimerTag::CameraToLeftAnim, 1, from).unwrap().to.translation.x, -220_000);
    assert_eq!(move_camera(GameTimerTag::TextReady, 1, from), None);
    let place = Transform { translation: Vec3 { x: 5, y: 257_000, z: 2 }, scale: ONE };
    let up = Transform { translation: Vec3 { x: 5, y: 357_000, z: 2 }, scale: ONE };
    let down = Transform { translation: Vec3 { x: 5, y: -343_000, z: 2 }, scale: ONE };
    assert_eq!(fade_slide(GameTimerTag::FadeInSeedBank, 4, place), Some(Slide { entity: 4, from: up, to: place }));
    assert_eq!(fade_slide(GameTimerTag::FadeInSeedChooser, 4, place), Some(Slide { entity: 4, from: down, to: place }));
    assert_eq!(fade_slide(GameTimerTag::FadeOutSeedChooser, 4, place), Some(Slide { entity: 4, from: place, to: down }));
    assert_eq!(fade_slide(GameTimerTag::FadeInCars, 4, place), None);
}

#[test]
fn mowers_roll_in_one_after_the_other() {
    let clip = trigger_fade_in_cars(8, 3);
    assert_eq!(clip.validate(), Ok(()));
    assert_eq!(clip.entity, 8);
    let frames: Vec<(u64, Vec3)> = clip.keyframes.iter().map(|k| (k.time, k.transform.unwrap().translation)).collect();
    assert_eq!(
        frames,
        vec![
            (0, Vec3 { x: -450_000, y: 100_000, z: 10_000 }),
            (500_000_000, Vec3 { x: -450_000, y: 100_000, z: 10_000 }),
            (600_000_000, Vec3 { x: -410_000, y: 100_000, z: 10_000 }),
        ]
    );
    let first = trigger_fade_in_cars(8, 0);
    assert_eq!(first.keyframes[1].time, 50_000_000);
    assert_eq!(first.keyframes[2].transform.unwrap().translation.y, -200_000);
    assert_eq!(trigger_fade_in_cars(8, 255).validate(), Ok(()));
}

#[test]
fn reward_and_flags_rise() {
    let from = Transform { translation: Vec3 { x: 5, y: 6, z: 7 }, scale: Vec3 { x: 700, y: 700, z: 1_000 } };
    assert_eq!(
        setup_exit_reward_anim(3, from),
        Slide { entity: 3, from, to: Transform { translation: Vec3 { x: 0, y: 200_000, z: 50_000 }, scale: from.scale } }
    );
    assert_eq!(
        raise_flag(4, from),
        Slide { entity: 4, from, to: Transform { translation: Vec3 { x: 5, y: 10_006, z: 7 }, scale: from.scale } }
    );
}
