use pvz_core::planting::find_tag;
use pvz_core::combat::{
    apply_effect_explode, check_game_over, check_zombie_eat_end, check_zombie_eat_start,
    cleanup_car_kill_zombie, find_solt, projectile_strikes, remove_outrange_car,
    remove_outrange_projectile, trigger_cleanup_car, update_plant_die, update_zombie_eat,
    update_zombie_eat_timer, zombie_projectile_damage, Hit, Projectile, ZombieBody, ZombieEatTag,
};
use pvz_core::geom::{Rect, Vec2};
use pvz_core::motion::{advance, update_lane_position, update_movement, update_velocity, MoveAcceleration, MoveVelocity};
use pvz_core::plant::{PlantHp, PlantType};
use pvz_core::planting::{PlantTag, SoltSite};
use pvz_core::shoot::LanePosition;
use pvz_core::solt::{PlantSolt, SoltType};
use pvz_core::spatial::{Located, SpatialIndex};
use pvz_core::timer::{Countdown, TimerMode};
use pvz_core::zombie::ZombieHp;

const S: u64 = 1_000_000_000;

fn body(entity: u64, x: i32, y: i32, hp: i64, armor: Vec<u32>, invincible: bool) -> ZombieBody {
    ZombieBody { entity, position: Vec2 { x, y }, hp: ZombieHp { hp, armor_hp: armor }, invincible }
}

#[test]
fn nearest_neighbour_prefers_the_first_of_equals() {
    let index = SpatialIndex::build(vec![
        Located { position: Vec2 { x: 10, y: 0 }, entity: 1 },
        Located { position: Vec2 { x: -10, y: 0 }, entity: 2 },
        Located { position: Vec2 { x: 3, y: 4 }, entity: 3 },
        Located { position: Vec2 { x: 0, y: 5 }, entity: 4 },
    ]);
    assert_eq!(index.nearest_neighbour(Vec2 { x: 0, y: 0 }).unwrap().entity, 3);
    assert_eq!(index.nearest_index(Vec2 { x: 0, y: 0 }), Some(2));
    assert_eq!(index.nearest_neighbour(Vec2 { x: 0, y: -100 }).unwrap().entity, 1);
    assert_eq!(index.nearest_neighbour(Vec2 { x: -9, y: 0 }).unwrap().entity, 2);
    assert_eq!(SpatialIndex::build(vec![]).nearest_neighbour(Vec2 { x: 0, y: 0 }), None);
}

#[test]
fn nearest_neighbour_works_across_the_whole_plane() {
    let index = SpatialIndex::build(vec![
        Located { position: Vec2 { x: i32::MAX, y: i32::MAX }, entity: 1 },
        Located { position: Vec2 { x: i32::MIN, y: i32::MIN }, entity: 2 },
    ]);
    assert_eq!(index.nearest_neighbour(Vec2 { x: -1, y: -1 }).unwrap().entity, 2);
    assert_eq!(index.nearest_neighbour(Vec2 { x: 0, y: 0 }).unwrap().entity, 1);
    assert_eq!(Vec2 { x: i32::MAX, y: i32::MAX }.distance_squared(Vec2 { x: i32::MIN, y: i32::MIN }), 2 * (u32::MAX as u128) * (u32::MAX as u128));
}

#[test]
fn hit_box_reaches_further_up_and_back() {
    let z = Vec2 { x: 100_000, y: 0 };
    assert!(projectile_strikes(z, Vec2 { x: 100_000, y: 0 }));
    assert!(projectile_strikes(z, Vec2 { x: 69_000, y: -14_000 }));
    assert!(!projectile_strikes(z, Vec2 { x: 68_999, y: 0 }));
    assert!(projectile_strikes(z, Vec2 { x: 115_000, y: 131_000 }));
    assert!(!projectile_strikes(z, Vec2 { x: 115_001, y: 0 }));
    assert!(!projectile_strikes(z, Vec2 { x: 100_000, y: 131_001 }));
    assert!(!projectile_strikes(z, Vec2 { x: 100_000, y: -14_001 }));
}

#[test]
fn projectiles_strike_the_nearest_invader() {
    let mut zombies = vec![
        body(1, 200_000, 0, 270_000, vec![], false),
        body(2, 100_000, 0, 270_000, vec![30_000], false),
        body(3, 300_000, 0, 270_000, vec![], true),
    ];
    let projectiles = vec![
        Projectile { entity: 10, position: Vec2 { x: 95_000, y: 40_000 } },
        Projectile { entity: 11, position: Vec2 { x: 0, y: 0 } },
        Projectile { entity: 12, position: Vec2 { x: 95_000, y: 50_000 } },
        Projectile { entity: 13, position: Vec2 { x: 300_000, y: 10_000 } },
        Projectile { entity: 14, position: Vec2 { x: 190_000, y: 0 } },
    ];
    let hits = zombie_projectile_damage(&projectiles, &mut zombies);
    assert_eq!(
        hits,
        vec![
            Hit { projectile: 10, zombie: 2 },
            Hit { projectile: 12, zombie: 2 },
            Hit { projectile: 13, zombie: 3 },
            Hit { projectile: 14, zombie: 1 }
        ]
    );
    assert_eq!(zombies[0].hp.hp, 250_000);
    assert_eq!(zombies[1].hp.armor_hp, vec![0]);
    assert_eq!(zombies[1].hp.hp, 260_000);
    // the invincible one is struck but not hurt
    assert_eq!(zombies[2].hp.hp, 270_000);
    assert!(zombie_projectile_damage(&projectiles, &mut Vec::new()).is_empty());
}

#[test]
fn projectile_leaves_the_field_outside_the_screen() {
    assert!(!remove_outrange_projectile(Vec2 { x: 500_000, y: -400_000 }));
    assert!(remove_outrange_projectile(Vec2 { x: 500_001, y: 0 }));
    assert!(remove_outrange_projectile(Vec2 { x: 0, y: 400_001 }));
    assert!(remove_outrange_projectile(Vec2 { x: -500_001, y: 0 }));
    assert!(Rect { min: Vec2 { x: 0, y: 0 }, max: Vec2 { x: 1, y: 1 } }.contains(Vec2 { x: 1, y: 0 }));
}

fn garden() -> (SpatialIndex, Vec<PlantTag>, Vec<SoltSite>) {
    let mut solt = PlantSolt::new(SoltType::Dirt);
    solt.primary = Some(50);
    solt.protect = Some(51);
    solt.pot = Some(52);
    let solts = vec![
        SoltSite { entity: 9, solt: PlantSolt::new(SoltType::Dirt), position: Vec2 { x: -80_000, y: -20_000 }, lane: 2 },
        SoltSite { entity: 10, solt, position: Vec2 { x: 0, y: -20_000 }, lane: 2 },
    ];
    let plants = vec![
        PlantTag { entity: 50, solt: 10, plant_type: PlantType::PeaShooter },
        PlantTag { entity: 51, solt: 10, plant_type: PlantType::Pumpkin },
        PlantTag { entity: 52, solt: 10, plant_type: PlantType::FlowerPot },
    ];
    let index = SpatialIndex::build(vec![
        Located { position: Vec2 { x: 0, y: -35_000 }, entity: 50 },
        Located { position: Vec2 { x: 0, y: -35_000 }, entity: 51 },
        Located { position: Vec2 { x: 0, y: -35_000 }, entity: 52 },
    ]);
    (index, plants, solts)
}

#[test]
fn invader_within_reach_eats_the_outermost_occupant() {
    let (index, plants, solts) = garden();
    assert_eq!(check_zombie_eat_start(Vec2 { x: 40_001, y: -35_000 }, &index, &plants, &solts), None);
    let eat = check_zombie_eat_start(Vec2 { x: 40_000, y: -35_000 }, &index, &plants, &solts).unwrap();
    assert_eq!(eat.target_plant, 51);
    let mut wound = Countdown::new(S / 2, TimerMode::Repeating);
    wound.set_elapsed(S / 2);
    assert_eq!(eat.timer, wound);
    assert_eq!(check_zombie_eat_start(Vec2 { x: 0, y: 0 }, &SpatialIndex::build(vec![]), &plants, &solts), None);
    // a defender that is not listed, or whose slot is not, is not eaten
    assert_eq!(check_zombie_eat_start(Vec2 { x: 0, y: -35_000 }, &index, &Vec::new(), &solts), None);
    assert_eq!(check_zombie_eat_start(Vec2 { x: 0, y: -35_000 }, &index, &plants, &Vec::new()), None);
    assert_eq!(find_tag(&plants, 52).unwrap().plant_type, PlantType::FlowerPot);
    assert_eq!(find_tag(&plants, 53), None);
    assert_eq!(find_solt(&solts, 10), Some(1));
    assert_eq!(find_solt(&solts, 11), None);
}

#[test]
fn eating_order_is_helper_shield_main_pot() {
    let mut solt = PlantSolt::new(SoltType::Dirt);
    assert_eq!(solt.eaten_first(), None);
    solt.pot = Some(4);
    assert_eq!(solt.eaten_first(), Some(4));
    solt.primary = Some(3);
    assert_eq!(solt.eaten_first(), Some(3));
    solt.protect = Some(2);
    assert_eq!(solt.eaten_first(), Some(2));
    solt.temp = Some(1);
    assert_eq!(solt.eaten_first(), Some(1));
    assert_eq!(solt.plants(), [Some(1), Some(2), Some(3), Some(4)]);
    for role in solt.plants_mut() {
        if *role == Some(2) {
            *role = None;
        }
    }
    assert_eq!(solt.plants(), [Some(1), None, Some(3), Some(4)]);
}

#[test]
fn bites_fall_at_once_and_then_every_half_second() {
    let (index, plants, solts) = garden();
    let mut eat = check_zombie_eat_start(Vec2 { x: 0, y: -35_000 }, &index, &plants, &solts).unwrap();
    let mut bites = 0;
    for tick in 0..120 {
        if update_zombie_eat_timer(S / 60, &mut eat) {
            bites += 1;
            if bites == 1 {
                assert_eq!(tick, 0);
            }
        }
    }
    // two seconds in ticks of a sixtieth (rounded down): the first bite and three more
    assert_eq!(bites, 4);
    assert_eq!(eat.target_plant, 51);
}

#[test]
fn eating_takes_attack_times_time() {
    let mut hp = PlantHp(200_000);
    update_zombie_eat(S / 2, 100_000, &mut hp);
    assert_eq!(hp, PlantHp(150_000));
    update_zombie_eat(16_666_667, 100_000, &mut hp);
    assert_eq!(hp, PlantHp(150_000 - 1_666));
    update_zombie_eat(0, 100_000, &mut hp);
    assert_eq!(hp, PlantHp(148_334));
    let mut low = PlantHp(i64::MIN + 1);
    update_zombie_eat(S, 100_000, &mut low);
    assert_eq!(low, PlantHp(i64::MIN));
}

#[test]
fn eating_ends_when_the_defender_is_gone() {
    let eat = ZombieEatTag { target_plant: 51, timer: Countdown::new(S / 2, TimerMode::Repeating) };
    assert!(!check_zombie_eat_end(&eat, &vec![50, 51, 52]));
    assert!(check_zombie_eat_end(&eat, &vec![50, 52]));
    assert!(check_zombie_eat_end(&eat, &Vec::new()));
}

#[test]
fn dead_defender_frees_its_roles_by_identity() {
    let mut solt = PlantSolt::new(SoltType::Dirt);
    solt.primary = Some(50);
    solt.protect = Some(51);
    let before = solt;
    assert!(!update_plant_die(50, &PlantHp(1), &mut solt));
    assert_eq!(solt, before);
    assert!(update_plant_die(50, &PlantHp(0), &mut solt));
    assert_eq!(solt.primary, None);
    assert_eq!(solt.protect, Some(51));
    assert!(update_plant_die(77, &PlantHp(-5), &mut solt));
    assert_eq!(solt.protect, Some(51));
}

#[test]
fn explosion_hurts_everyone_strictly_within_its_radius() {
    let mut zombies = vec![
        body(1, 149_999, 0, 270_000, vec![100_000], true),
        body(2, 150_000, 0, 270_000, vec![], false),
        body(3, 0, -100_000, 5_000_000, vec![], false),
    ];
    apply_effect_explode(Vec2 { x: 0, y: 0 }, 150_000, 1_800_000, &mut zombies);
    assert_eq!(zombies[0].hp.armor_hp, vec![0]);
    assert_eq!(zombies[0].hp.hp, 270_000 - 1_700_000);
    assert_eq!(zombies[1].hp.hp, 270_000);
    assert_eq!(zombies[2].hp.hp, 3_200_000);
    apply_effect_explode(Vec2 { x: 0, y: 0 }, u32::MAX, 1, &mut zombies);
    assert_eq!(zombies[1].hp.hp, 269_999);
}

#[test]
fn mower_starts_when_an_invader_of_its_lane_comes_near() {
    let car = LanePosition { lane: 2, x: -410_000 };
    let run = Some(MoveVelocity(Vec2 { x: 200_000, y: 0 }));
    assert_eq!(trigger_cleanup_car(&car, &vec![LanePosition { lane: 2, x: -369_999 }, LanePosition { lane: 1, x: -400_000 }]), None);
    assert_eq!(trigger_cleanup_car(&car, &vec![LanePosition { lane: 1, x: 0 }, LanePosition { lane: 2, x: -370_000 }]), run);
    assert_eq!(trigger_cleanup_car(&car, &vec![LanePosition { lane: 2, x: -440_000 }]), run);
    assert_eq!(trigger_cleanup_car(&car, &Vec::new()), None);
}

#[test]
fn running_mower_ends_invaders_under_its_blades() {
    let car = LanePosition { lane: 2, x: 0 };
    let mut hp = ZombieHp { hp: 270_000, armor_hp: vec![5, 6] };
    cleanup_car_kill_zombie(&car, &LanePosition { lane: 2, x: 40_000 }, &mut hp);
    assert_eq!(hp.hp, 270_000);
    cleanup_car_kill_zombie(&car, &LanePosition { lane: 3, x: 0 }, &mut hp);
    assert_eq!(hp.hp, 270_000);
    cleanup_car_kill_zombie(&car, &LanePosition { lane: 2, x: -39_999 }, &mut hp);
    assert_eq!(hp.hp, 0);
    assert_eq!(hp.armor_hp, vec![0, 0]);
    assert!(!remove_outrange_car(&LanePosition { lane: 2, x: 600_000 }));
    assert!(remove_outrange_car(&LanePosition { lane: 2, x: 600_001 }));
}

#[test]
fn round_is_lost_when_an_invader_gets_behind_the_line() {
    assert!(!check_game_over(&vec![LanePosition { lane: 0, x: -450_000 }, LanePosition { lane: 1, x: 500_000 }]));
    assert!(check_game_over(&vec![LanePosition { lane: 0, x: 0 }, LanePosition { lane: 1, x: -450_001 }]));
    assert!(!check_game_over(&Vec::new()));
}

#[test]
fn motion_integrates_rates_over_time() {
    assert_eq!(advance(500_000, -20_000, S), 480_000);
    assert_eq!(advance(500_000, -20_000, 16_666_667), 500_000 - 333);
    assert_eq!(advance(0, 7, S / 2), 3);
    assert_eq!(advance(0, -7, S / 2), -3);
    assert_eq!(advance(i32::MAX - 1, 1_000, S), i32::MAX);
    assert_eq!(advance(i32::MIN, i32::MIN, u64::MAX), i32::MIN);
    assert_eq!(advance(0, i32::MAX, u64::MAX), i32::MAX);
    let mut v = MoveVelocity(Vec2 { x: 10, y: 500_000 });
    update_velocity(S / 2, false, &MoveAcceleration(Vec2 { x: 0, y: -1_000_000 }), &mut v);
    assert_eq!(v, MoveVelocity(Vec2 { x: 10, y: 0 }));
    update_velocity(S / 2, true, &MoveAcceleration(Vec2 { x: 0, y: -1_000_000 }), &mut v);
    assert_eq!(v, MoveVelocity(Vec2 { x: 10, y: 0 }));
    let mut p = Vec2 { x: 0, y: 0 };
    update_movement(2 * S, false, &MoveVelocity(Vec2 { x: 500_000, y: -1 }), &mut p);
    assert_eq!(p, Vec2 { x: 1_000_000, y: -2 });
    update_movement(2 * S, true, &MoveVelocity(Vec2 { x: 500_000, y: -1 }), &mut p);
    assert_eq!(p, Vec2 { x: 1_000_000, y: -2 });
    let mut lane = LanePosition { lane: 3, x: 0 };
    update_lane_position(&mut lane, &p);
    assert_eq!(lane, LanePosition { lane: 3, x: 1_000_000 });
}

#[test]
fn invader_walks_up_to_a_defender_and_starts_to_eat() {
    // a defender on lane 2 at x = -80, an invader entering at x = 500 with 20 units a second
    let lane_y = 2 * 100_000 - 235_000;
    let mut solt = PlantSolt::new(SoltType::Dirt);
    solt.primary = Some(50);
    let solts = vec![SoltSite { entity: 10, solt, position: Vec2 { x: -80_000, y: lane_y + 15_000 }, lane: 2 }];
    let plants = vec![PlantTag { entity: 50, solt: 10, plant_type: PlantType::WallNut }];
    let index = SpatialIndex::build(vec![Located { position: Vec2 { x: -80_000, y: lane_y }, entity: 50 }]);
    let mut position = Vec2 { x: 500_000, y: lane_y };
    let mut lane_position = LanePosition { lane: 2, x: 500_000 };
    let velocity = MoveVelocity(Vec2 { x: -20_000, y: 0 });
    let delta = S / 50;
    let mut eating = None;
    let mut ticks = 0u32;
    while eating.is_none() {
        update_movement(delta, false, &velocity, &mut position);
        update_lane_position(&mut lane_position, &position);
        eating = check_zombie_eat_start(position, &index, &plants, &solts);
        ticks += 1;
        assert!(ticks < 10_000);
    }
    // 540 units to the reach of 40 around the defender, at 0.4 units a tick
    assert_eq!(ticks, 1350);
    assert_eq!(position.x, -40_000);
    assert_eq!(lane_position, LanePosition { lane: 2, x: -40_000 });
    let eat = eating.unwrap();
    assert_eq!(eat.target_plant, 50);
    // eating holds the invader still
    update_movement(delta, true, &velocity, &mut position);
    assert_eq!(position.x, -40_000);
    assert!(!check_game_over(&vec![lane_position]));
}
