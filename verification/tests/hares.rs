use hunter_game::components::{FieldSize, MovementSpeed, Threat};
use hunter_game::hare::{
    hare_die, hare_evade_walls, hare_flee, hare_move, hare_spawn, hare_spawn_at, hare_wander,
    hare_wander_by, ActiveHares, Hare, HareBehavior, HareData, HareSteeringData,
};
use hunter_game::player::{bullet_fly, player_die, Bullet, BulletData, BulletDuration, Player, PlayerData};
use hunter_game::predation::{feed_first, resolve_collisions};
use hunter_game::steering::{EvadeWallsData, FleeData, Physics, WanderData};
use hunter_game::vector::Vec2;
use hunter_game::wolf::{wolf_starve, ActiveWolves, Wolf, WolfBehavior, WolfData};
use rand::rngs::StdRng;
use rand::SeedableRng;

fn v(x: i32, y: i32) -> Vec2 {
    Vec2::new(x, y)
}

fn settings(max_number: u32) -> HareData {
    HareData { movement_speed: 100_000, width: 60_000, height: 60_000, max_number }
}

fn wolf_settings() -> WolfData {
    WolfData { movement_speed: 120_000, width: 60_000, height: 60_000, max_number: 1 }
}

fn bullet_settings() -> BulletData {
    BulletData { width: 24_000, height: 24_000, movement_speed: 600_000, max_duration: 2000 }
}

fn steering() -> HareSteeringData {
    HareSteeringData {
        wander: WanderData {
            weight: 500,
            displace_range: 300,
            radius: 25_000,
            max_force: 300,
            distance: 80_000,
        },
        flee: FleeData { weight: 1000, max_flee_time: 2000 },
        evade_walls: EvadeWallsData { weight: 1000 },
    }
}

fn hare_at(position: Vec2) -> Hare {
    Hare {
        position,
        physics: Physics { velocity: v(0, -2000), acceleration: v(0, 0), wander_theta: 1571 },
        speed: MovementSpeed::new(100_000),
        behavior: HareBehavior { force: v(0, 0), flee_time: 0 },
    }
}

fn wolf_at(position: Vec2, hunger_time: i32) -> Wolf {
    Wolf {
        position,
        physics: Physics { velocity: v(0, 0), acceleration: v(0, 0), wander_theta: 0 },
        speed: MovementSpeed::new(120_000),
        behavior: WolfBehavior { force: v(0, 0), hunger_time, max_hunger_time: 5000 },
    }
}

fn bullet_at(position: Vec2, shot_at: i32) -> Bullet {
    Bullet {
        position,
        physics: Physics { velocity: v(0, 10_000), acceleration: v(0, 0), wander_theta: 0 },
        duration: BulletDuration { shot_at },
    }
}

#[test]
fn active_hares_start_at_zero() {
    assert_eq!(ActiveHares::default().count, 0);
}

#[test]
fn hare_spawn_at_places_one_hare_until_the_target_is_met() {
    let mut hares = Vec::new();
    let mut active = ActiveHares::default();
    for i in 0..4 {
        hare_spawn_at(&mut hares, &mut active, &settings(3), v(i, i));
    }
    assert_eq!(active.count, 3);
    assert_eq!(hares, vec![hare_at(v(0, 0)), hare_at(v(1, 1)), hare_at(v(2, 2))]);
}

#[test]
fn hare_spawn_places_inside_the_margin() {
    let field = FieldSize { width: 1_200_000, height: 700_000 };
    let mut hares = Vec::new();
    let mut active = ActiveHares::default();
    let mut rng = StdRng::seed_from_u64(23);
    for _ in 0..60 {
        hare_spawn(&mut hares, &mut active, &field, &settings(50), &mut rng);
    }
    assert_eq!(active.count, 50);
    assert_eq!(hares.len(), 50);
    for hare in &hares {
        assert!(-570_000 <= hare.position.x && hare.position.x < 570_000);
        assert!(-320_000 <= hare.position.y && hare.position.y < 320_000);
        assert_eq!(*hare, hare_at(hare.position));
    }
    assert!(hares.iter().any(|h| h.position.y != hares[0].position.y));
}

#[test]
fn hares_below_target_are_inert() {
    let mut hares = vec![hare_at(v(580_000, 0))];
    hares[0].behavior.force = v(10, 10);
    let before = hares.clone();
    let active = ActiveHares { count: 1 };
    let walls = FieldSize { width: 1_200_000, height: 700_000 }.walls();
    hare_evade_walls(&mut hares, &active, &settings(2), &steering(), &walls.value);
    hare_flee(&mut hares, &vec![Threat { position: v(570_000, 0) }], &active, &settings(2), &steering(), 1000);
    hare_wander_by(&mut hares, &active, &settings(2), &steering(), &vec![100]);
    hare_wander(&mut hares, &active, &settings(2), &steering(), &mut StdRng::seed_from_u64(1));
    hare_move(&mut hares, &active, &settings(2));
    assert_eq!(hares, before);
}

#[test]
fn hare_move_consumes_the_force_and_keeps_the_speed() {
    let mut hares = vec![hare_at(v(1000, 1000))];
    hares[0].behavior.force = v(500, 0);
    hares[0].behavior.flee_time = 42;
    hares[0].speed = MovementSpeed::new(150_000);
    hare_move(&mut hares, &ActiveHares { count: 1 }, &settings(1));
    assert_eq!(hares[0].physics.velocity, v(500, -2000));
    assert_eq!(hares[0].position, v(1500, -1000));
    assert_eq!(hares[0].behavior.force, v(0, 0));
    assert_eq!(hares[0].behavior.flee_time, 42);
    assert_eq!(hares[0].speed.value, 150_000);
}

#[test]
fn hare_wander_by_moves_each_phase() {
    let mut hares = vec![hare_at(v(0, 0)), hare_at(v(1, 1))];
    hare_wander_by(&mut hares, &ActiveHares { count: 2 }, &settings(2), &steering(), &vec![-71, 29]);
    assert_eq!(hares[0].physics.wander_theta, 1500);
    assert_eq!(hares[1].physics.wander_theta, 1600);
    assert_eq!(hares[0].behavior.force, v(44, -143));
}

#[test]
fn hare_wander_draws_within_the_range() {
    let mut hares: Vec<Hare> = (0..40).map(|i| hare_at(v(i, 0))).collect();
    hare_wander(&mut hares, &ActiveHares { count: 40 }, &settings(40), &steering(), &mut StdRng::seed_from_u64(9));
    for hare in &hares {
        let moved = hare.physics.wander_theta - 1571;
        assert!(-300 <= moved && moved < 300);
    }
    assert!(hares.iter().any(|h| h.physics.wander_theta != hares[0].physics.wander_theta));
}

#[test]
fn wandering_without_hares_needs_no_range() {
    let mut hares: Vec<Hare> = Vec::new();
    let mut data = steering();
    data.wander.displace_range = 0;
    hare_wander(&mut hares, &ActiveHares { count: 0 }, &settings(0), &data, &mut StdRng::seed_from_u64(9));
    assert!(hares.is_empty());
}

#[test]
fn flee_raises_the_speed_by_fifty_units() {
    let mut hares = vec![hare_at(v(0, 0))];
    let threats = vec![Threat { position: v(50_000, 0) }];
    hare_flee(&mut hares, &threats, &ActiveHares { count: 1 }, &settings(1), &steering(), 10_000);
    assert_eq!(hares[0].speed.value, 150_000);
    assert_eq!(hares[0].behavior.flee_time, 10_000);
    assert_eq!(hares[0].behavior.force, v(-1952, 1561));
}

#[test]
fn flee_speed_falls_back_after_the_flight_time() {
    let active = ActiveHares { count: 1 };
    let mut hares = vec![hare_at(v(0, 0))];
    hare_flee(&mut hares, &vec![Threat { position: v(50_000, 0) }], &active, &settings(1), &steering(), 10_000);
    let far = vec![Threat { position: v(500_000, 0) }];
    hare_flee(&mut hares, &far, &active, &settings(1), &steering(), 11_999);
    assert_eq!(hares[0].speed.value, 150_000);
    assert_eq!(hares[0].behavior.flee_time, 10_000);
    hare_flee(&mut hares, &far, &active, &settings(1), &steering(), 12_000);
    assert_eq!(hares[0].speed.value, 100_000);
    assert_eq!(hares[0].behavior.flee_time, 0);
    assert_eq!(hares[0].behavior.force, v(-1952, 1561));
}

#[test]
fn flee_ignores_the_hare_itself_and_far_threats() {
    let mut hares = vec![hare_at(v(0, 0))];
    hares[0].speed = MovementSpeed::new(150_000);
    hares[0].behavior.flee_time = 500;
    hares[0].behavior.force = v(3, 4);
    let before = hares.clone();
    let active = ActiveHares { count: 1 };
    hare_flee(&mut hares, &vec![Threat { position: v(0, 0) }], &active, &settings(1), &steering(), 2499);
    assert_eq!(hares, before);
    hare_flee(&mut hares, &vec![], &active, &settings(1), &steering(), 2499);
    assert_eq!(hares, before);
    hare_flee(&mut hares, &vec![Threat { position: v(100_000, 0) }], &active, &settings(1), &steering(), 600);
    assert_eq!(hares, before);
}

#[test]
fn flee_speed_falls_back_with_no_threat_listed() {
    let mut boosted = hare_at(v(0, 0));
    boosted.speed = MovementSpeed::new(150_000);
    boosted.behavior.flee_time = 500;
    boosted.behavior.force = v(3, 4);
    let mut rested = boosted;
    rested.speed = MovementSpeed::new(100_000);
    rested.behavior.flee_time = 0;
    let active = ActiveHares { count: 1 };
    let mut hares = vec![boosted];
    hare_flee(&mut hares, &vec![], &active, &settings(1), &steering(), 2500);
    assert_eq!(hares, vec![rested]);
    let mut hares = vec![boosted];
    hare_flee(&mut hares, &vec![Threat { position: v(0, 0) }], &active, &settings(1), &steering(), 900_000);
    assert_eq!(hares, vec![rested]);
    let mut hares = vec![boosted];
    hare_flee(&mut hares, &vec![Threat { position: v(500_000, 0) }], &active, &settings(1), &steering(), 900_000);
    assert_eq!(hares, vec![rested]);
}

#[test]
fn a_lone_hare_slows_down_once_the_wolves_are_gone() {
    let mut hares = vec![hare_at(v(0, 0))];
    let active = ActiveHares { count: 1 };
    let with_wolf = vec![Threat { position: v(0, 0) }, Threat { position: v(50_000, 0) }];
    hare_flee(&mut hares, &with_wolf, &active, &settings(1), &steering(), 2000);
    assert_eq!(hares[0].speed.value, 150_000);
    assert_eq!(hares[0].behavior.flee_time, 2000);
    let alone = vec![Threat { position: v(0, 0) }];
    hare_flee(&mut hares, &alone, &active, &settings(1), &steering(), 3999);
    assert_eq!(hares[0].speed.value, 150_000);
    hare_flee(&mut hares, &alone, &active, &settings(1), &steering(), 4000);
    assert_eq!(hares[0].speed.value, 100_000);
    assert_eq!(hares[0].behavior.flee_time, 0);
}

#[test]
fn a_flight_that_is_over_ends_before_a_new_one_starts() {
    let mut hares = vec![hare_at(v(0, 0))];
    hares[0].speed = MovementSpeed::new(150_000);
    hares[0].behavior.flee_time = 500;
    let threats = vec![Threat { position: v(50_000, 0) }, Threat { position: v(500_000, 0) }];
    hare_flee(&mut hares, &threats, &ActiveHares { count: 1 }, &settings(1), &steering(), 900_000);
    assert_eq!(hares[0].speed.value, 150_000);
    assert_eq!(hares[0].behavior.flee_time, 900_000);
    assert_eq!(hares[0].behavior.force, v(-1952, 1561));
}

#[test]
fn flee_forces_of_two_threats_add_up() {
    let mut hares = vec![hare_at(v(0, 0))];
    let threats = vec![Threat { position: v(50_000, 0) }, Threat { position: v(-50_000, 0) }];
    hare_flee(&mut hares, &threats, &ActiveHares { count: 1 }, &settings(1), &steering(), 10_000);
    assert_eq!(hares[0].behavior.force, v(-1952 + 1952, 1561 + 1561));
}

#[test]
fn flee_speed_saturates() {
    let mut hares = vec![hare_at(v(0, 0))];
    let mut data = settings(1);
    data.movement_speed = i32::MAX - 10;
    hare_flee(&mut hares, &vec![Threat { position: v(50_000, 0) }], &ActiveHares { count: 1 }, &data, &steering(), 1);
    assert_eq!(hares[0].speed.value, i32::MAX);
}

#[test]
fn hare_evade_walls_pushes_back() {
    let walls = FieldSize { width: 1_200_000, height: 700_000 }.walls();
    let mut hares = vec![hare_at(v(0, -330_000))];
    hare_evade_walls(&mut hares, &ActiveHares { count: 1 }, &settings(1), &steering(), &walls.value);
    assert_eq!(hares[0].behavior.force, v(0, 1666));
}

#[test]
fn feed_first_feeds_only_the_first_wolf_in_reach() {
    let size = v(60_000, 60_000);
    let mut wolves = vec![wolf_at(v(500_000, 0), 1), wolf_at(v(10_000, 0), 2), wolf_at(v(-10_000, 0), 3)];
    let eaten = feed_first(&mut wolves, size, v(0, 0), size, 7000);
    assert!(eaten);
    assert_eq!(wolves[0].behavior.hunger_time, 1);
    assert_eq!(wolves[1].behavior.hunger_time, 7000);
    assert_eq!(wolves[2].behavior.hunger_time, 3);
    let missed = feed_first(&mut wolves, size, v(0, 300_000), size, 9000);
    assert!(!missed);
    assert_eq!(wolves[1].behavior.hunger_time, 7000);
}

#[test]
fn resolve_collisions_marks_prey_and_spends_bullets() {
    let size = v(60_000, 60_000);
    let bullet_size = v(24_000, 24_000);
    let positions = vec![v(0, 0), v(200_000, 0), v(400_000, 0), v(600_000, 0)];
    let mut wolves = vec![wolf_at(v(30_000, 0), 1), wolf_at(v(620_000, 0), 2)];
    let mut bullets = vec![bullet_at(v(210_000, 0), 0), bullet_at(v(0, 500_000), 0), bullet_at(v(610_000, 10_000), 0)];
    let dead = resolve_collisions(&positions, size, &mut wolves, size, &mut bullets, bullet_size, 5000);
    assert_eq!(dead, vec![true, true, false, true]);
    assert_eq!(wolves[0].behavior.hunger_time, 5000);
    assert_eq!(wolves[1].behavior.hunger_time, 5000);
    assert_eq!(bullets, vec![bullet_at(v(0, 500_000), 0)]);
}

#[test]
fn one_bullet_kills_every_prey_it_reaches() {
    let size = v(60_000, 60_000);
    let positions = vec![v(0, 0), v(20_000, 0)];
    let mut wolves = Vec::new();
    let mut bullets = vec![bullet_at(v(10_000, 0), 0)];
    let dead = resolve_collisions(&positions, size, &mut wolves, size, &mut bullets, v(24_000, 24_000), 1);
    assert_eq!(dead, vec![true, true]);
    assert!(bullets.is_empty());
}

#[test]
fn hare_die_removes_the_caught_and_feeds_the_wolf() {
    let mut hares = vec![hare_at(v(0, 0)), hare_at(v(300_000, 0)), hare_at(v(-300_000, 0))];
    let mut wolves = vec![wolf_at(v(20_000, 20_000), 100)];
    let mut bullets = vec![bullet_at(v(-290_000, 0), 0), bullet_at(v(0, 300_000), 0)];
    hare_die(&mut hares, &mut wolves, &mut bullets, &settings(3), &wolf_settings(), &bullet_settings(), 3000);
    assert_eq!(hares, vec![hare_at(v(300_000, 0))]);
    assert_eq!(wolves[0].behavior.hunger_time, 3000);
    assert_eq!(bullets, vec![bullet_at(v(0, 300_000), 0)]);
}

#[test]
fn hare_die_runs_even_below_the_target() {
    let mut hares = vec![hare_at(v(0, 0))];
    let mut wolves = vec![wolf_at(v(0, 0), 100)];
    let mut bullets = Vec::new();
    hare_die(&mut hares, &mut wolves, &mut bullets, &settings(9), &wolf_settings(), &bullet_settings(), 3000);
    assert!(hares.is_empty());
}

#[test]
fn a_hare_caught_twice_dies_once() {
    let mut hares = vec![hare_at(v(0, 0)), hare_at(v(300_000, 0))];
    let mut wolves = vec![wolf_at(v(10_000, 0), 100)];
    let mut bullets = vec![bullet_at(v(-10_000, 0), 0)];
    hare_die(&mut hares, &mut wolves, &mut bullets, &settings(2), &wolf_settings(), &bullet_settings(), 3000);
    assert_eq!(hares, vec![hare_at(v(300_000, 0))]);
    assert!(bullets.is_empty());
    assert_eq!(wolves[0].behavior.hunger_time, 3000);
}

#[test]
fn feeding_at_three_seconds_carries_the_wolf_past_five() {
    let t0 = 20_000;
    let active = ActiveWolves { count: 1 };
    let mut wolves = vec![wolf_at(v(0, 0), t0)];
    let mut hares = vec![hare_at(v(10_000, 0))];
    let mut bullets = Vec::new();
    hare_die(&mut hares, &mut wolves, &mut bullets, &settings(1), &wolf_settings(), &bullet_settings(), t0 + 3000);
    assert!(hares.is_empty());
    wolf_starve(&mut wolves, t0 + 5100, &active, &wolf_settings());
    assert_eq!(wolves.len(), 1);
    wolf_starve(&mut wolves, t0 + 8000, &active, &wolf_settings());
    assert_eq!(wolves.len(), 1);
    wolf_starve(&mut wolves, t0 + 8001, &active, &wolf_settings());
    assert!(wolves.is_empty());
}

#[test]
fn bullets_fly_until_their_time_is_up() {
    let mut bullets = vec![bullet_at(v(0, 0), 1000), bullet_at(v(5, 5), 3000), bullet_at(v(9, 9), 1001)];
    bullet_fly(&mut bullets, &bullet_settings(), 3000);
    assert_eq!(bullets, vec![bullet_at(v(5, 10_005), 3000), bullet_at(v(9, 10_009), 1001)]);
    bullet_fly(&mut bullets, &bullet_settings(), 3001);
    assert_eq!(bullets, vec![bullet_at(v(5, 20_005), 3000)]);
}

#[test]
fn player_dies_when_a_wolf_reaches_them() {
    let data = PlayerData { movement_speed: 200_000, width: 60_000, height: 60_000 };
    let hunter = Player {
        position: v(0, 0),
        physics: Physics { velocity: v(0, -2000), acceleration: v(0, 0), wander_theta: 0 },
        speed: MovementSpeed::new(200_000),
    };
    let mut player = Some(hunter);
    let mut wolves = vec![wolf_at(v(100_000, 0), 1), wolf_at(v(-59_999, 59_999), 2), wolf_at(v(0, 0), 3)];
    player_die(&mut player, &mut wolves, &data, &wolf_settings(), 4000);
    assert_eq!(player, None);
    assert_eq!(wolves[1].behavior.hunger_time, 4000);
    assert_eq!(wolves[2].behavior.hunger_time, 3);
    player_die(&mut player, &mut wolves, &data, &wolf_settings(), 9000);
    assert_eq!(player, None);
    assert_eq!(wolves[1].behavior.hunger_time, 4000);
}

#[test]
fn player_lives_while_no_wolf_is_near() {
    let data = PlayerData { movement_speed: 200_000, width: 60_000, height: 60_000 };
    let hunter = Player {
        position: v(0, 0),
        physics: Physics { velocity: v(0, -2000), acceleration: v(0, 0), wander_theta: 0 },
        speed: MovementSpeed::new(200_000),
    };
    let mut player = Some(hunter);
    let mut wolves = vec![wolf_at(v(60_000, 0), 1)];
    player_die(&mut player, &mut wolves, &data, &wolf_settings(), 4000);
    assert_eq!(player, Some(hunter));
    assert_eq!(wolves[0].behavior.hunger_time, 1);
}
