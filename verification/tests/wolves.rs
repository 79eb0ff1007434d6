use hunter_game::components::{FieldSize, MovementSpeed, Prey};
use hunter_game::steering::{EvadeWallsData, Physics, PursueData, WanderData};
use hunter_game::vector::Vec2;
use hunter_game::wolf::{
    wolf_evade_walls, wolf_move, wolf_pursue, wolf_spawn, wolf_spawn_at, wolf_starve, wolf_wander,
    wolf_wander_by, ActiveWolves, Wolf, WolfBehavior, WolfData, WolfSteeringData,
};
use rand::rngs::StdRng;
use rand::SeedableRng;

fn v(x: i32, y: i32) -> Vec2 {
    Vec2::new(x, y)
}

fn settings(max_number: u32) -> WolfData {
    WolfData { movement_speed: 120_000, width: 60_000, height: 60_000, max_number }
}

fn steering() -> WolfSteeringData {
    WolfSteeringData {
        wander: WanderData {
            weight: 500,
            displace_range: 300,
            radius: 25_000,
            max_force: 300,
            distance: 80_000,
        },
        evade_walls: EvadeWallsData { weight: 1000 },
        pursue: PursueData { weight: 1000 },
    }
}

fn wolf_at(position: Vec2, velocity: Vec2) -> Wolf {
    Wolf {
        position,
        physics: Physics { velocity, acceleration: v(0, 0), wander_theta: 1571 },
        speed: MovementSpeed::new(120_000),
        behavior: WolfBehavior { force: v(0, 0), hunger_time: 0, max_hunger_time: 5000 },
    }
}

fn fed(mut wolf: Wolf, time: i32) -> Wolf {
    wolf.behavior.hunger_time = time;
    wolf
}

#[test]
fn wolf_spawn_at_places_one_wolf_and_counts_it() {
    let mut wolves = Vec::new();
    let mut active = ActiveWolves { count: 0 };
    wolf_spawn_at(&mut wolves, &mut active, &settings(2), v(1000, -2000));
    assert_eq!(active.count, 1);
    assert_eq!(wolves.len(), 1);
    assert_eq!(wolves[0], wolf_at(v(1000, -2000), v(0, -2000)));
    assert_eq!(wolves[0].behavior.max_hunger_time, 5000);
    assert_eq!(wolves[0].speed.value, 120_000);
}

#[test]
fn wolf_spawn_stops_at_the_target() {
    let mut wolves = Vec::new();
    let mut active = ActiveWolves { count: 0 };
    for _ in 0..5 {
        wolf_spawn_at(&mut wolves, &mut active, &settings(2), v(0, 0));
    }
    assert_eq!(active.count, 2);
    assert_eq!(wolves.len(), 2);
}

#[test]
fn wolf_spawn_with_target_zero_never_spawns() {
    let mut wolves = Vec::new();
    let mut active = ActiveWolves { count: 0 };
    let mut rng = StdRng::seed_from_u64(3);
    let field = FieldSize { width: 0, height: 0 };
    wolf_spawn(&mut wolves, &mut active, &field, &settings(0), &mut rng);
    assert_eq!(active.count, 0);
    assert!(wolves.is_empty());
}

#[test]
fn wolf_spawn_places_inside_the_margin() {
    let field = FieldSize { width: 1_200_000, height: 700_000 };
    let mut wolves = Vec::new();
    let mut active = ActiveWolves { count: 0 };
    let mut rng = StdRng::seed_from_u64(11);
    for _ in 0..50 {
        wolf_spawn(&mut wolves, &mut active, &field, &settings(50), &mut rng);
    }
    assert_eq!(active.count, 50);
    assert_eq!(wolves.len(), 50);
    for wolf in &wolves {
        assert!(-570_000 <= wolf.position.x && wolf.position.x < 570_000);
        assert!(-320_000 <= wolf.position.y && wolf.position.y < 320_000);
        assert_eq!(*wolf, wolf_at(wolf.position, v(0, -2000)));
    }
    assert!(wolves.iter().any(|w| w.position != wolves[0].position));
    assert!(wolves.iter().any(|w| w.position.x != -570_000));
}

#[test]
fn wolves_below_target_do_not_move() {
    let mut wolves = vec![wolf_at(v(0, 0), v(0, -2000))];
    wolves[0].behavior.force = v(100, 100);
    let before = wolves.clone();
    let active = ActiveWolves { count: 1 };
    wolf_move(&mut wolves, &active, &settings(2));
    assert_eq!(wolves, before);
    wolf_wander_by(&mut wolves, &active, &settings(2), &steering(), &vec![100]);
    assert_eq!(wolves, before);
    let walls = FieldSize { width: 10_000, height: 10_000 }.walls();
    wolf_evade_walls(&mut wolves, &active, &settings(2), &steering(), &walls.value);
    assert_eq!(wolves, before);
    wolf_pursue(&mut wolves, &vec![Prey { position: v(5000, 0), velocity: v(0, 0) }], &active, &settings(2), &steering());
    assert_eq!(wolves, before);
    wolf_starve(&mut wolves, 1_000_000, &active, &settings(2));
    assert_eq!(wolves, before);
}

#[test]
fn wolf_move_consumes_the_force() {
    let mut wolves = vec![wolf_at(v(1000, 1000), v(0, -1000))];
    wolves[0].behavior.force = v(600, 0);
    wolves[0].physics.acceleration = v(0, 200);
    wolf_move(&mut wolves, &ActiveWolves { count: 1 }, &settings(1));
    assert_eq!(wolves[0].physics.velocity, v(600, -800));
    assert_eq!(wolves[0].position, v(1600, 200));
    assert_eq!(wolves[0].behavior.force, v(0, 0));
    assert_eq!(wolves[0].physics.acceleration, v(0, 0));
    wolf_move(&mut wolves, &ActiveWolves { count: 1 }, &settings(1));
    assert_eq!(wolves[0].physics.velocity, v(600, -800));
    assert_eq!(wolves[0].position, v(2200, -600));
}

#[test]
fn wolf_wander_by_uses_the_displacement_at_each_index() {
    let mut wolves = vec![wolf_at(v(0, 0), v(0, -2000)), wolf_at(v(9, 9), v(0, -2000)), wolf_at(v(5, 5), v(0, -2000))];
    wolf_wander_by(&mut wolves, &ActiveWolves { count: 3 }, &settings(3), &steering(), &vec![-71, 29]);
    assert_eq!(wolves[0].physics.wander_theta, 1500);
    assert_eq!(wolves[1].physics.wander_theta, 1600);
    assert_eq!(wolves[2].physics.wander_theta, 1571);
    assert_eq!(wolves[0].behavior.force, v(44, -143));
    assert_eq!(wolves[0].position, v(0, 0));
}

#[test]
fn wolf_wander_draws_within_the_range() {
    let mut wolves: Vec<Wolf> = (0..40).map(|i| wolf_at(v(i, 0), v(0, -2000))).collect();
    let mut rng = StdRng::seed_from_u64(5);
    wolf_wander(&mut wolves, &ActiveWolves { count: 40 }, &settings(40), &steering(), &mut rng);
    for wolf in &wolves {
        let moved = wolf.physics.wander_theta - 1571;
        assert!(-300 <= moved && moved < 300);
        assert_eq!(wolf.behavior.force, v(44, -143));
    }
    assert!(wolves.iter().any(|w| w.physics.wander_theta != wolves[0].physics.wander_theta));
    assert!(wolves.iter().any(|w| w.physics.wander_theta != 1571 - 300));
}

#[test]
fn two_wolves_pursue_one_prey_each_for_itself() {
    let prey = vec![Prey { position: v(0, 0), velocity: v(0, 0) }];
    let mut wolves = vec![wolf_at(v(-60_000, 0), v(0, -2000)), wolf_at(v(0, 80_000), v(1000, 0))];
    wolf_pursue(&mut wolves, &prey, &ActiveWolves { count: 2 }, &settings(2), &steering());
    assert_eq!(wolves[0].behavior.force, v(1414, 1414));
    assert_eq!(wolves[1].behavior.force, v(-894, -1788));
    let mut alone = vec![wolf_at(v(-60_000, 0), v(0, -2000))];
    wolf_pursue(&mut alone, &prey, &ActiveWolves { count: 2 }, &settings(2), &steering());
    assert_eq!(alone[0].behavior.force, wolves[0].behavior.force);
}

#[test]
fn pursuit_aims_ahead_of_a_moving_prey() {
    let still = vec![Prey { position: v(0, 0), velocity: v(0, 0) }];
    let moving = vec![Prey { position: v(0, 0), velocity: v(0, 1000) }];
    let mut a = vec![wolf_at(v(-60_000, 0), v(0, -2000))];
    let mut b = a.clone();
    wolf_pursue(&mut a, &still, &ActiveWolves { count: 1 }, &settings(1), &steering());
    wolf_pursue(&mut b, &moving, &ActiveWolves { count: 1 }, &settings(1), &steering());
    assert_eq!(a[0].behavior.force, v(1414, 1414));
    assert_eq!(b[0].behavior.force, v(1051, 1701));
}

#[test]
fn pursuit_forces_of_several_prey_add_up() {
    let prey = vec![
        Prey { position: v(0, 0), velocity: v(0, 0) },
        Prey { position: v(-60_000, 50_000), velocity: v(0, 0) },
        Prey { position: v(200_000, 0), velocity: v(0, 0) },
    ];
    let mut wolves = vec![wolf_at(v(-60_000, 0), v(0, -2000))];
    wolves[0].behavior.force = v(5, 5);
    let mut data = steering();
    data.pursue.weight = 500;
    wolf_pursue(&mut wolves, &prey, &ActiveWolves { count: 1 }, &settings(1), &data);
    assert_eq!(wolves[0].behavior.force, v(5 + 707 + 0, 5 + 707 + 1000));
}

#[test]
fn pursuit_reaches_exactly_one_hundred_units() {
    let prey = vec![Prey { position: v(0, 0), velocity: v(0, 0) }];
    let mut at_edge = vec![wolf_at(v(100_000, 0), v(0, 0))];
    wolf_pursue(&mut at_edge, &prey, &ActiveWolves { count: 1 }, &settings(1), &steering());
    assert_eq!(at_edge[0].behavior.force, v(-2000, 0));
    let mut beyond = vec![wolf_at(v(100_001, 0), v(0, 0))];
    wolf_pursue(&mut beyond, &prey, &ActiveWolves { count: 1 }, &settings(1), &steering());
    assert_eq!(beyond[0].behavior.force, v(0, 0));
}

#[test]
fn pursuit_does_not_round_the_distance_down() {
    let prey = vec![Prey { position: v(0, 0), velocity: v(0, 0) }];
    let mut close = vec![wolf_at(v(60_000, 80_000), v(0, 0))];
    wolf_pursue(&mut close, &prey, &ActiveWolves { count: 1 }, &settings(1), &steering());
    assert_eq!(close[0].behavior.force, v(-1200, -1600));
    let mut a_hair_beyond = vec![wolf_at(v(100_000, 317), v(0, 0))];
    wolf_pursue(&mut a_hair_beyond, &prey, &ActiveWolves { count: 1 }, &settings(1), &steering());
    assert_eq!(a_hair_beyond[0].behavior.force, v(0, 0));
}

#[test]
fn wandering_without_wolves_needs_no_range() {
    let mut wolves: Vec<Wolf> = Vec::new();
    let mut data = steering();
    data.wander.displace_range = 0;
    let mut rng = StdRng::seed_from_u64(5);
    wolf_wander(&mut wolves, &ActiveWolves { count: 0 }, &settings(0), &data, &mut rng);
    assert!(wolves.is_empty());
    data.wander.displace_range = -7;
    wolf_wander(&mut wolves, &ActiveWolves { count: 0 }, &settings(0), &data, &mut rng);
    assert!(wolves.is_empty());
}

#[test]
fn wolf_evade_walls_pushes_every_wolf() {
    let walls = FieldSize { width: 1_200_000, height: 700_000 }.walls();
    let mut wolves = vec![wolf_at(v(580_000, 0), v(2000, 0)), wolf_at(v(0, 0), v(2000, 0))];
    wolf_evade_walls(&mut wolves, &ActiveWolves { count: 2 }, &settings(2), &steering(), &walls.value);
    assert_eq!(wolves[0].behavior.force, v(-2000, 0));
    assert_eq!(wolves[1].behavior.force, v(0, 0));
}

#[test]
fn hunger_clock_starts_when_first_seen() {
    let mut wolves = vec![wolf_at(v(0, 0), v(0, 0))];
    wolf_starve(&mut wolves, 1_000_000, &ActiveWolves { count: 1 }, &settings(1));
    assert_eq!(wolves.len(), 1);
    assert_eq!(wolves[0].behavior.hunger_time, 1_000_000);
}

#[test]
fn wolf_lives_just_before_and_starves_just_after_five_seconds() {
    let t0 = 20_000;
    let active = ActiveWolves { count: 1 };
    let mut wolves = vec![fed(wolf_at(v(0, 0), v(0, 0)), t0)];
    wolf_starve(&mut wolves, t0 + 4900, &active, &settings(1));
    assert_eq!(wolves.len(), 1);
    wolf_starve(&mut wolves, t0 + 5000, &active, &settings(1));
    assert_eq!(wolves.len(), 1);
    assert_eq!(wolves[0].behavior.hunger_time, t0);
    wolf_starve(&mut wolves, t0 + 5100, &active, &settings(1));
    assert!(wolves.is_empty());
}

#[test]
fn starving_keeps_the_order_of_the_others() {
    let mut wolves = vec![
        fed(wolf_at(v(1, 0), v(0, 0)), 1000),
        fed(wolf_at(v(2, 0), v(0, 0)), 9000),
        fed(wolf_at(v(3, 0), v(0, 0)), 2000),
        wolf_at(v(4, 0), v(0, 0)),
        fed(wolf_at(v(5, 0), v(0, 0)), 5000),
    ];
    wolf_starve(&mut wolves, 10_000, &ActiveWolves { count: 5 }, &settings(5));
    let places: Vec<i32> = wolves.iter().map(|w| w.position.x).collect();
    assert_eq!(places, vec![2, 4, 5]);
    assert_eq!(wolves[1].behavior.hunger_time, 10_000);
}

#[test]
fn hunger_clock_at_the_end_of_time_does_not_overflow() {
    let mut wolves = vec![fed(wolf_at(v(0, 0), v(0, 0)), i32::MAX)];
    wolf_starve(&mut wolves, i32::MAX, &ActiveWolves { count: 1 }, &settings(1));
    assert_eq!(wolves.len(), 1);
}
