use pvz_core::anim::{Slide, Transform, Vec3};
use pvz_core::geom::Vec2;
use pvz_core::level::{ItemType, Reward, Wave, WaveType};
use pvz_core::motion::{MoveAcceleration, MoveVelocity};
use pvz_core::plant::{PlantCooldown, PlantProduce, PlantProduct, PlantType, PlantUsable, ResourceType, SeedHover};
use pvz_core::planting::Sunshine;
use pvz_core::produce::{
    calculate_throw_initial_velocity, launch_product, plant_product, plant_product_with,
    produce_cooldown, PlantProduceTag,
};
use pvz_core::progress::{
    level_progress, update_level_progress, update_level_progress_flag, update_level_progress_head,
    LevelProgressFlagTag,
};
use pvz_core::level::LevelType;
use pvz_core::reward::{
    check_summon_reward, check_summon_reward_with, input_pick_reward_seed, is_unlocked,
    trigger_finish, update_reward_solt, RewardSolt, UserData,
};
use pvz_core::rng::{centre_draw, random_in, step_from};
use pvz_core::seed::{
    cancel_pick_seed, check_plant_seed_usable, hovered_seed, input_pick_seed, restart_seed,
    update_seed_cooldown, PickOutcome, PickSeed, SeedCard,
};
use pvz_core::sunshine::{
    collect_slide, collect_sunshine, setup_sunshine_solt, update_natural_sunshine,
    update_natural_sunshine_with, update_sunshine, NaturalSunshineSolt, NaturalSunshineTag,
    SunshineItem, SunshineTag,
};
use pvz_core::timeline::GameState;
use pvz_core::timer::{Countdown, TimerMode};
use pvz_core::wave::ZombieWaveController;

const S: u64 = 1_000_000_000;
const H: WaveType = WaveType::HugeWave;
const N: WaveType = WaveType::Normal;

fn card(entity: u64, cost: u32, hover: SeedHover) -> SeedCard {
    SeedCard { entity, sunshine: cost, cooldown: PlantCooldown::Ready, usable: PlantUsable::Usable, hover }
}

#[test]
fn usability_follows_pool_and_cooldown() {
    let mut seeds = vec![card(1, 100, SeedHover::Away), card(2, 50, SeedHover::Away), card(3, 25, SeedHover::Away)];
    seeds[2].cooldown = PlantCooldown::Cooldown(5);
    check_plant_seed_usable(&Sunshine(99), &mut seeds);
    assert_eq!(seeds[0].usable, PlantUsable::Unusable);
    assert_eq!(seeds[1].usable, PlantUsable::Usable);
    assert_eq!(seeds[2].usable, PlantUsable::Unusable);
    check_plant_seed_usable(&Sunshine(100), &mut seeds);
    assert_eq!(seeds[0].usable, PlantUsable::Usable);
    update_seed_cooldown(4, &mut seeds);
    assert_eq!(seeds[2].cooldown, PlantCooldown::Cooldown(1));
    assert_eq!(seeds[0].cooldown, PlantCooldown::Ready);
    update_seed_cooldown(1, &mut seeds);
    assert_eq!(seeds[2].cooldown, PlantCooldown::Ready);
    check_plant_seed_usable(&Sunshine(100), &mut seeds);
    assert_eq!(seeds[2].usable, PlantUsable::Usable);
}

#[test]
fn cooldown_counts_down_to_ready() {
    let mut c = PlantCooldown::Cooldown(10);
    c.tick(3);
    assert_eq!(c, PlantCooldown::Cooldown(7));
    c.tick(7);
    assert_eq!(c, PlantCooldown::Ready);
    c.tick(100);
    assert_eq!(c, PlantCooldown::Ready);
    let mut c = PlantCooldown::Cooldown(10);
    c.tick(u64::MAX);
    assert_eq!(c, PlantCooldown::Ready);
}

#[test]
fn click_on_a_usable_card_picks_it_up() {
    let seeds = vec![card(1, 100, SeedHover::Away), card(2, 50, SeedHover::Hover), card(3, 25, SeedHover::Hover)];
    assert_eq!(hovered_seed(&seeds), Some(1));
    let mut carried = None;
    let out = input_pick_seed(true, &seeds, &mut carried, &Sunshine(50), 900);
    assert_eq!(out, PickOutcome::Picked { seed: 1, dropped: None });
    assert_eq!(carried, Some(PickSeed { entity: 900, seed: 2 }));
    // clicking the same card again drops the seed
    let out = input_pick_seed(true, &seeds, &mut carried, &Sunshine(50), 901);
    assert_eq!(out, PickOutcome::Cancelled(900));
    assert_eq!(carried, None);
}

#[test]
fn click_on_another_card_swaps_the_carried_seed() {
    let seeds = vec![card(1, 100, SeedHover::Hover), card(2, 50, SeedHover::Away)];
    let mut carried = Some(PickSeed { entity: 900, seed: 2 });
    let out = input_pick_seed(true, &seeds, &mut carried, &Sunshine(100), 901);
    assert_eq!(out, PickOutcome::Picked { seed: 0, dropped: Some(900) });
    assert_eq!(carried, Some(PickSeed { entity: 901, seed: 1 }));
}

#[test]
fn click_on_an_unusable_card_is_rejected() {
    let mut seeds = vec![card(1, 100, SeedHover::Hover)];
    let mut carried = None;
    assert_eq!(input_pick_seed(true, &seeds, &mut carried, &Sunshine(99), 900), PickOutcome::Rejected);
    seeds[0].cooldown = PlantCooldown::Cooldown(1);
    assert_eq!(input_pick_seed(true, &seeds, &mut carried, &Sunshine(100), 900), PickOutcome::Rejected);
    seeds[0].cooldown = PlantCooldown::Ready;
    seeds[0].usable = PlantUsable::Unusable;
    assert_eq!(input_pick_seed(true, &seeds, &mut carried, &Sunshine(100), 900), PickOutcome::Rejected);
    assert_eq!(carried, None);
    let mut other = Some(PickSeed { entity: 5, seed: 77 });
    assert_eq!(input_pick_seed(true, &seeds, &mut other, &Sunshine(100), 900), PickOutcome::Rejected);
    assert_eq!(other, Some(PickSeed { entity: 5, seed: 77 }));
}

#[test]
fn no_click_or_no_card_is_ignored() {
    let seeds = vec![card(1, 100, SeedHover::Hover)];
    let mut carried = None;
    assert_eq!(input_pick_seed(false, &seeds, &mut carried, &Sunshine(100), 900), PickOutcome::Ignored);
    let away = vec![card(1, 100, SeedHover::Away)];
    assert_eq!(input_pick_seed(true, &away, &mut carried, &Sunshine(100), 900), PickOutcome::Ignored);
    assert_eq!(input_pick_seed(true, &Vec::new(), &mut carried, &Sunshine(100), 900), PickOutcome::Ignored);
    assert_eq!(carried, None);
}

#[test]
fn right_click_drops_the_carried_seed() {
    let mut carried = Some(PickSeed { entity: 900, seed: 2 });
    assert_eq!(cancel_pick_seed(false, &mut carried), None);
    assert_eq!(carried, Some(PickSeed { entity: 900, seed: 2 }));
    assert_eq!(cancel_pick_seed(true, &mut carried), Some(900));
    assert_eq!(carried, None);
    assert_eq!(cancel_pick_seed(true, &mut carried), None);
}

#[test]
fn restart_touches_only_the_named_card() {
    let mut seeds = vec![card(1, 100, SeedHover::Away), card(2, 50, SeedHover::Away)];
    restart_seed(&mut seeds, 2, 7 * S);
    assert_eq!(seeds[0].cooldown, PlantCooldown::Ready);
    assert_eq!(seeds[1].cooldown, PlantCooldown::Cooldown(7 * S));
    restart_seed(&mut seeds, 3, 7 * S);
    assert_eq!(seeds[0].cooldown, PlantCooldown::Ready);
}

fn sunflower() -> PlantProduce {
    PlantProduce {
        cooldown: 24 * S,
        cooldown_spread: 2 * S,
        products: vec![
            PlantProduct { resource_type: ResourceType::Sunshine, max_times: None, delay: 0, timing: S / 2, offset_x: 0, offset_y: 10_000 },
            PlantProduct { resource_type: ResourceType::Sunshine, max_times: Some(60 * S), delay: 30 * S, timing: 0, offset_x: -5_000, offset_y: 0 },
        ],
    }
}

#[test]
fn rearming_moves_the_interval_within_the_spread() {
    let config = sunflower();
    assert_eq!(produce_cooldown(&config, 0), 23 * S);
    assert_eq!(produce_cooldown(&config, 2 * S - 1), 25 * S - 1);
    let wide = PlantProduce { cooldown: S, cooldown_spread: 10 * S, products: vec![] };
    assert_eq!(produce_cooldown(&wide, 0), 0);
    assert_eq!(produce_cooldown(&wide, 5 * S), S);
    let huge = PlantProduce { cooldown: u64::MAX, cooldown_spread: 0, products: vec![] };
    assert_eq!(produce_cooldown(&huge, 7), u64::MAX);
}

#[test]
fn lob_velocity_covers_the_way_in_the_flight_time() {
    let v = calculate_throw_initial_velocity(Vec2 { x: 0, y: 0 }, Vec2 { x: 30_000, y: -20_000 }, -1_000_000, S);
    assert_eq!(v, Vec2 { x: 30_000, y: 480_000 });
    let v = calculate_throw_initial_velocity(Vec2 { x: 10, y: 10 }, Vec2 { x: 10, y: 10 }, -1_000_000, S);
    assert_eq!(v, Vec2 { x: 0, y: 500_000 });
    let v = calculate_throw_initial_velocity(Vec2 { x: 0, y: 0 }, Vec2 { x: -30_001, y: 7 }, -1_000_000, 2 * S);
    assert_eq!(v, Vec2 { x: -15_000, y: 3 + 1_000_000 });
    let v = calculate_throw_initial_velocity(Vec2 { x: i32::MIN, y: 0 }, Vec2 { x: i32::MAX, y: 0 }, 0, 1);
    assert_eq!(v, Vec2 { x: i32::MAX, y: 0 });
}

#[test]
fn producer_yields_the_products_that_are_due() {
    let config = sunflower();
    let origin = Vec2 { x: 100_000, y: -50_000 };
    let scatter = vec![Vec2 { x: 20_000, y: -10_000 }, Vec2 { x: 0, y: 0 }];
    let mut tag = PlantProduceTag { cooldown: 23 * S, elapsed: 0 };
    let out = plant_product_with(10 * S, &mut tag, &config, origin, 0, &scatter);
    assert!(!out.fired);
    assert!(out.resources.is_empty());
    assert_eq!(tag, PlantProduceTag { cooldown: 13 * S, elapsed: 10 * S });
    let out = plant_product_with(13 * S, &mut tag, &config, origin, S, &scatter);
    assert!(out.fired);
    assert_eq!(tag, PlantProduceTag { cooldown: 24 * S, elapsed: 23 * S });
    // at 23 s only the first product is within its window
    assert_eq!(out.resources.len(), 1);
    let r = out.resources[0];
    assert_eq!(r, launch_product(&config.products[0], origin, scatter[0]));
    assert_eq!(r.count, 25);
    assert_eq!(r.position, Vec2 { x: 100_000, y: -40_000 });
    assert_eq!(r.velocity, Vec2 { x: 20_000, y: 490_000 });
    assert_eq!(r.acceleration, Vec2 { x: 0, y: -1_000_000 });
    assert_eq!(r.delay_show, Countdown::new(S / 2, TimerMode::Once));
    assert_eq!(r.move_timer, Countdown::new(S / 2 + S, TimerMode::Once));
    assert_eq!(r.despawn, Countdown::new(S / 2 + 30 * S, TimerMode::Once));
    // at 47 s both are
    let out = plant_product_with(24 * S, &mut tag, &config, origin, 0, &scatter);
    assert!(out.fired);
    assert_eq!(out.resources.len(), 2);
    assert_eq!(out.resources[1].position, Vec2 { x: 95_000, y: -50_000 });
    // past 60 s the second window is closed again
    let out = plant_product_with(23 * S, &mut tag, &config, origin, 0, &scatter);
    assert!(out.fired);
    assert_eq!(tag.elapsed, 70 * S);
    assert_eq!(out.resources.len(), 1);
}

#[test]
fn random_production_stays_within_its_ranges() {
    let config = sunflower();
    for _ in 0..50 {
        let mut tag = PlantProduceTag { cooldown: 0, elapsed: 40 * S };
        let out = plant_product(0, &mut tag, &config, Vec2 { x: 0, y: 0 });
        assert!(out.fired);
        assert!(tag.cooldown >= 23 * S && tag.cooldown < 25 * S);
        assert_eq!(out.resources.len(), 2);
        for r in &out.resources {
            // the landing place is within 50 units of the start
            assert!(r.velocity.x >= -50_000 && r.velocity.x < 50_000);
            assert!(r.velocity.y >= 450_000 && r.velocity.y < 550_000);
        }
    }
    for _ in 0..50 {
        let r = random_in(10, 13);
        assert!((10..13).contains(&r));
    }
    assert_eq!(random_in(5, 5), 5);
    assert_eq!(random_in(9, 2), 9);
}

#[test]
fn sunshine_falls_from_the_sky_at_intervals() {
    assert_eq!(setup_sunshine_solt(false), None);
    let mut solt = setup_sunshine_solt(true).unwrap();
    assert_eq!(solt, NaturalSunshineSolt { next_sunshine_timer: Countdown::new(7 * S, TimerMode::Once) });
    assert_eq!(update_natural_sunshine_with(6 * S, &mut solt, 9 * S, 1, 2), None);
    assert_eq!(solt.next_sunshine_timer.elapsed, 6 * S);
    let fallen = update_natural_sunshine_with(S, &mut solt, 9 * S, -120_000, 50_000).unwrap();
    assert_eq!(fallen.position, Vec2 { x: -120_000, y: 300_000 });
    assert_eq!(fallen.natural, NaturalSunshineTag { target_y: 50_000 });
    assert_eq!(fallen.sunshine, SunshineTag { count: 25 });
    assert_eq!(fallen.despawn, Countdown::new(30 * S, TimerMode::Once));
    assert_eq!(solt.next_sunshine_timer, Countdown::new(9 * S, TimerMode::Once));
    for _ in 0..50 {
        let mut solt = NaturalSunshineSolt { next_sunshine_timer: Countdown::new(0, TimerMode::Once) };
        let fallen = update_natural_sunshine(1, &mut solt).unwrap();
        assert!((-350_000..350_000).contains(&fallen.position.x));
        assert!((-200_000..200_000).contains(&fallen.natural.target_y));
        assert!((7 * S..15 * S).contains(&solt.next_sunshine_timer.duration));
        assert_eq!(solt.next_sunshine_timer.elapsed, 0);
    }
}

#[test]
fn falling_sunshine_sinks_to_its_rest() {
    let tag = NaturalSunshineTag { target_y: 100_000 };
    let mut y = 300_000;
    update_sunshine(S, &tag, &mut y);
    assert_eq!(y, 250_000);
    update_sunshine(10 * S, &tag, &mut y);
    assert_eq!(y, 100_000);
    update_sunshine(S, &tag, &mut y);
    assert_eq!(y, 100_000);
}

#[test]
fn click_collects_the_first_sunshine_within_reach() {
    let sunshines = vec![
        SunshineItem { entity: 1, position: Vec2 { x: 100_000, y: 0 }, sunshine: SunshineTag { count: 25 } },
        SunshineItem { entity: 2, position: Vec2 { x: 40_000, y: 0 }, sunshine: SunshineTag { count: 50 } },
        SunshineItem { entity: 3, position: Vec2 { x: 0, y: 0 }, sunshine: SunshineTag { count: 15 } },
    ];
    let mut pool = Sunshine(100);
    assert_eq!(collect_sunshine(false, &sunshines, Vec2 { x: 0, y: 0 }, &mut pool), None);
    assert_eq!(pool, Sunshine(100));
    // the second is the first within reach, though the third is nearer
    assert_eq!(collect_sunshine(true, &sunshines, Vec2 { x: 0, y: 0 }, &mut pool), Some(1));
    assert_eq!(pool, Sunshine(150));
    assert_eq!(collect_sunshine(true, &sunshines, Vec2 { x: 0, y: 200_000 }, &mut pool), None);
    assert_eq!(collect_sunshine(true, &sunshines, Vec2 { x: 155_000, y: 0 }, &mut pool), Some(0));
    assert_eq!(pool, Sunshine(175));
    let from = Transform { translation: Vec3 { x: 5, y: 6, z: 30_000 }, scale: Vec3 { x: 1_000, y: 1_000, z: 1_000 } };
    assert_eq!(
        collect_slide(9, from),
        Slide { entity: 9, from, to: Transform { translation: Vec3 { x: -330_000, y: 265_000, z: 30_000 }, scale: from.scale } }
    );
}

fn waves(kinds: &[WaveType]) -> Vec<Wave> {
    kinds.iter().map(|k| Wave { wave_type: *k, zombies: vec![] }).collect()
}

#[test]
fn progress_counts_huge_waves_and_the_waves_between() {
    let w = waves(&[N, N, H, N, H]);
    // two flags: a share is 79 units
    // index 0: 0 + 158 * 1 / (2 * 4) - 15 = 4.75
    assert_eq!(level_progress(&w, 0), 4_750);
    // index 1: 158 * 2 / (2 * 4) - 15
    assert_eq!(level_progress(&w, 1), 24_500);
    assert_eq!(level_progress(&w, 2), 44_250);
    // index 3: one huge wave passed; 79 + 158 * 1 / (2 * 3) - 15
    assert_eq!(level_progress(&w, 3), 79_000 + 26_333 - 15_000);
    assert_eq!(level_progress(&w, 4), 79_000 + 52_666 - 15_000);
    assert_eq!(level_progress(&w, 5), 158_000);
    let plain = waves(&[N, N]);
    assert_eq!(level_progress(&plain, 0), 158_000 / 4 - 15_000);
    assert_eq!(level_progress(&plain, 1), 158_000 / 2 - 15_000);
    assert_eq!(level_progress(&plain, 2), 158_000);
    assert_eq!(level_progress(&Vec::new(), 0), 158_000);
    let early = waves(&[N, N, N, N, N, N, N, N, N, N, N, N, N, N, N, N, N, N, N, N, N, N, N]);
    assert_eq!(level_progress(&early, 0), 0);
}

#[test]
fn bar_moves_no_faster_than_it_may() {
    let w = waves(&[N, N, H, N, H]);
    let mut unfilled = 158_000;
    update_level_progress(&w, 3, S, &mut unfilled);
    assert_eq!(unfilled, 138_000);
    update_level_progress(&w, 3, 10 * S, &mut unfilled);
    assert_eq!(unfilled, 158_000 - 90_333);
    update_level_progress(&w, 3, S, &mut unfilled);
    assert_eq!(unfilled, 158_000 - 90_333);
    // the bar never moves back by itself, but follows a target that does
    update_level_progress(&w, 0, 0, &mut unfilled);
    assert_eq!(unfilled, 158_000 - 4_750);
    assert_eq!(update_level_progress_head(100_000), 332_000);
    let mut flag = LevelProgressFlagTag::NotReach;
    assert!(!update_level_progress_flag(100_000, &mut flag, 316_999));
    assert_eq!(flag, LevelProgressFlagTag::NotReach);
    assert!(update_level_progress_flag(100_000, &mut flag, 317_000));
    assert_eq!(flag, LevelProgressFlagTag::Reach);
    assert!(!update_level_progress_flag(100_000, &mut flag, 317_000));
    assert_eq!(flag, LevelProgressFlagTag::Reach);
}

fn done(index: usize) -> ZombieWaveController {
    ZombieWaveController { next_wave_timer: Countdown::new(30 * S, TimerMode::Once), next_wave_index: index, trigger_huge_wave: false }
}

#[test]
fn reward_drops_once_when_all_waves_are_out_and_the_field_is_clear() {
    let reward = Reward::Plant { plant: PlantType::Sunflower };
    let mut anchor = Some(RewardSolt { entity: 70, position: Vec2 { x: 400_000, y: -300_000 } });
    assert_eq!(check_summon_reward_with(&mut anchor, &done(2), 3, true, reward.clone(), Vec2 { x: 0, y: 0 }), None);
    assert_eq!(check_summon_reward_with(&mut anchor, &done(3), 3, false, reward.clone(), Vec2 { x: 0, y: 0 }), None);
    assert!(anchor.is_some());
    let drop = check_summon_reward_with(&mut anchor, &done(3), 3, true, reward.clone(), Vec2 { x: -5_000, y: 10_000 }).unwrap();
    assert_eq!(anchor, None);
    assert_eq!(drop.anchor, 70);
    assert_eq!(drop.reward, reward);
    assert_eq!(drop.position, Vec2 { x: 400_000, y: -300_000 });
    // it lands at (350 - 5, -250 + 10): 55 units to the left and 60 units up
    assert_eq!(drop.velocity, MoveVelocity(Vec2 { x: -55_000, y: 60_000 + 500_000 }));
    assert_eq!(drop.acceleration, MoveAcceleration(Vec2 { x: 0, y: -1_000_000 }));
    assert_eq!(drop.move_timer, Countdown::new(S, TimerMode::Once));
    for _ in 0..10 {
        assert_eq!(check_summon_reward_with(&mut anchor, &done(3), 3, true, reward.clone(), Vec2 { x: 0, y: 0 }), None);
        assert_eq!(check_summon_reward(&mut anchor, &done(3), 3, true, reward.clone()), None);
        assert_eq!(anchor, None);
    }
}

#[test]
fn random_reward_lands_near_the_anchor() {
    let reward = Reward::Plant { plant: PlantType::Sunflower };
    for _ in 0..50 {
        let mut anchor = Some(RewardSolt { entity: 70, position: Vec2 { x: 0, y: 0 } });
        let drop = check_summon_reward(&mut anchor, &done(0), 0, true, reward.clone()).unwrap();
        assert!((-20_000..20_000).contains(&drop.velocity.0.x));
        assert!((480_000..520_000).contains(&drop.velocity.0.y));
        assert_eq!(anchor, None);
    }
}

#[test]
fn anchor_follows_an_invader() {
    let mut anchor = RewardSolt { entity: 70, position: Vec2 { x: 0, y: 0 } };
    update_reward_solt(&mut anchor, None);
    assert_eq!(anchor.position, Vec2 { x: 0, y: 0 });
    update_reward_solt(&mut anchor, Some(Vec2 { x: 5, y: 6 }));
    assert_eq!(anchor, RewardSolt { entity: 70, position: Vec2 { x: 5, y: 6 } });
    assert_eq!(input_pick_reward_seed(true, true), Some(GameState::Exit));
    assert_eq!(input_pick_reward_seed(true, false), None);
    assert_eq!(input_pick_reward_seed(false, true), None);
}

#[test]
fn winning_unlocks_the_reward_and_moves_the_adventure_on() {
    let mut user = UserData::default();
    assert_eq!(user.unlock_plugins, vec![PlantType::PeaShooter]);
    assert_eq!(user.plant_solt_count, 6);
    assert_eq!(user.adventure_progress, 1);
    trigger_finish(&mut user, &LevelType::Adventure { level: 1 }, &Some(Reward::Plant { plant: PlantType::Sunflower }));
    assert_eq!(user.unlock_plugins, vec![PlantType::PeaShooter, PlantType::Sunflower]);
    assert_eq!(user.adventure_progress, 2);
    assert_eq!(user.pass_adventure_count, 0);
    trigger_finish(&mut user, &LevelType::PlantZombie, &Some(Reward::Plant { plant: PlantType::Sunflower }));
    trigger_finish(&mut user, &LevelType::PlantZombie, &Some(Reward::Item { item: ItemType::Shovel }));
    trigger_finish(&mut user, &LevelType::PlantZombie, &Some(Reward::Note { note_path: "images/note.png".to_string() }));
    assert_eq!(user.unlock_plugins.len(), 2);
    assert_eq!(user.adventure_progress, 2);
    user.adventure_progress = 50;
    trigger_finish(&mut user, &LevelType::Adventure { level: 50 }, &None);
    assert_eq!(user.adventure_progress, 0);
    assert_eq!(user.pass_adventure_count, 1);
    assert_eq!(user.unlock_plugins.len(), 2);
    user.adventure_progress = 49;
    trigger_finish(&mut user, &LevelType::Adventure { level: 49 }, &None);
    assert_eq!(user.adventure_progress, 50);
    assert_eq!(user.pass_adventure_count, 1);
    assert!(is_unlocked(&user.unlock_plugins, PlantType::Sunflower));
    assert!(!is_unlocked(&user.unlock_plugins, PlantType::WallNut));
}

#[test]
fn draws_are_placed_in_their_ranges() {
    assert_eq!(step_from(10, 13, 0), 10);
    assert_eq!(step_from(10, 13, 2), 12);
    // a draw that leads out of the range, or an empty range, leaves the lower end
    assert_eq!(step_from(10, 13, 3), 10);
    assert_eq!(step_from(5, 5, 0), 5);
    assert_eq!(step_from(9, 2, 1), 9);
    assert_eq!(step_from(0, u64::MAX, u64::MAX - 1), u64::MAX - 1);
    assert_eq!(centre_draw(50_000, 0), -50_000);
    assert_eq!(centre_draw(50_000, 50_000), 0);
    assert_eq!(centre_draw(50_000, 99_999), 49_999);
    assert_eq!(centre_draw(1, u64::MAX), i32::MAX);
    assert_eq!(centre_draw(i32::MIN, 0), i32::MAX);
    assert_eq!(centre_draw(i32::MAX, 0), -i32::MAX);
}
