use hunter_game::components::{FieldSize, MovementSpeed, Threat};
use hunter_game::deer::{
    deer_alignment, deer_cohesion, deer_die, deer_evade, deer_evade_walls, deer_flee, deer_move,
    deer_separation, deer_spawn, deer_spawn_herd, deer_wander, deer_wander_by, flock_step,
    Behavior, Deer, DeerData, DeerGroup, DeerGroups, DeerSteeringData, FlockRule, GroupID,
};
use hunter_game::player::{Bullet, BulletData, BulletDuration};
use hunter_game::steering::{
    EvadeData, EvadeWallsData, FleeData, FlockingData, Physics, WanderData,
};
use hunter_game::vector::Vec2;
use hunter_game::wolf::{Wolf, WolfBehavior, WolfData};
use rand::rngs::StdRng;
use rand::SeedableRng;

fn v(x: i32, y: i32) -> Vec2 {
    Vec2::new(x, y)
}

fn settings(group_number: u32) -> DeerData {
    DeerData { movement_speed: 90_000, width: 60_000, height: 60_000, max_number: 8, group_number }
}

fn rule() -> FlockingData {
    FlockingData { perception_radius: 50_000, max_force: 200 }
}

fn steering() -> DeerSteeringData {
    DeerSteeringData {
        wander: WanderData {
            weight: 500,
            displace_range: 300,
            radius: 25_000,
            max_force: 300,
            distance: 80_000,
        },
        evade_walls: EvadeWallsData { weight: 1000 },
        flee: FleeData { weight: 1000, max_flee_time: 0 },
        evade: EvadeData { weight: 1000 },
        separation: rule(),
        alignment: rule(),
        cohesion: rule(),
    }
}

fn deer_at(position: Vec2, velocity: Vec2, group: u32) -> Deer {
    Deer {
        position,
        physics: Physics { velocity, acceleration: v(0, 0), wander_theta: 1571 },
        speed: MovementSpeed::new(90_000),
        behavior: Behavior { force: v(0, 0) },
        group: GroupID { value: group },
    }
}

fn groups(ids: &[u32]) -> DeerGroups {
    DeerGroups { groups: ids.iter().map(|id| DeerGroup { id: *id, count: 3 }).collect() }
}

fn herd() -> Vec<Deer> {
    vec![
        deer_at(v(0, 0), v(0, -2000), 7),
        deer_at(v(30_000, 0), v(2000, 0), 7),
        deer_at(v(0, 40_000), v(0, 2000), 7),
        deer_at(v(10_000, 10_000), v(5000, 5000), 8),
        deer_at(v(300_000, 0), v(1000, 1000), 7),
    ]
}

fn wolf_at(position: Vec2, velocity: Vec2) -> Wolf {
    Wolf {
        position,
        physics: Physics { velocity, acceleration: v(0, 0), wander_theta: 0 },
        speed: MovementSpeed::new(120_000),
        behavior: WolfBehavior { force: v(0, 0), hunger_time: 100, max_hunger_time: 5000 },
    }
}

#[test]
fn groups_know_when_they_are_full() {
    assert!(groups(&[1, 2]).is_full(&settings(2)));
    assert!(groups(&[1, 2, 3]).is_full(&settings(2)));
    assert!(!groups(&[1]).is_full(&settings(2)));
    assert!(groups(&[]).is_full(&settings(0)));
    assert!(groups(&[4, 9]).has(9));
    assert!(!groups(&[4, 9]).has(5));
}

#[test]
fn separation_alignment_and_cohesion_within_the_herd() {
    let all = herd();
    assert_eq!(flock_step(&all[0], &all, FlockRule::Separation, &rule()), v(-162, -117));
    assert_eq!(flock_step(&all[0], &all, FlockRule::Alignment, &rule()), v(139, 143));
    assert_eq!(flock_step(&all[0], &all, FlockRule::Cohesion, &rule()), v(117, 161));
}

#[test]
fn flocking_with_one_neighbour() {
    let pair = vec![herd()[0], herd()[1]];
    assert_eq!(flock_step(&pair[0], &pair, FlockRule::Separation, &rule()), v(-199, 4));
    assert_eq!(flock_step(&pair[0], &pair, FlockRule::Alignment, &rule()), v(199, 4));
    assert_eq!(flock_step(&pair[0], &pair, FlockRule::Cohesion, &rule()), v(199, 4));
}

#[test]
fn flocking_with_no_neighbour_adds_no_force() {
    let all = herd();
    let lonely = vec![all[0], all[3], all[4]];
    let mut me = all[0];
    me.behavior.force = v(13, -17);
    for rule_kind in [FlockRule::Separation, FlockRule::Alignment, FlockRule::Cohesion] {
        assert_eq!(flock_step(&me, &lonely, rule_kind, &rule()), v(13, -17));
        assert_eq!(flock_step(&me, &vec![], rule_kind, &rule()), v(13, -17));
        assert_eq!(flock_step(&me, &vec![me], rule_kind, &rule()), v(13, -17));
    }
}

#[test]
fn flocking_ignores_other_herds() {
    let all = herd();
    let own: Vec<Deer> = all.iter().copied().filter(|d| d.group.value == 7).collect();
    for rule_kind in [FlockRule::Separation, FlockRule::Alignment, FlockRule::Cohesion] {
        assert_eq!(flock_step(&all[0], &all, rule_kind, &rule()), flock_step(&all[0], &own, rule_kind, &rule()));
    }
}

#[test]
fn flocking_systems_add_their_force_to_every_deer() {
    let full = groups(&[7, 8]);
    let mut deer = herd();
    deer_separation(&mut deer, &steering(), &settings(2), &full);
    assert_eq!(deer[0].behavior.force, v(-162, -117));
    assert_eq!(deer[3].behavior.force, v(0, 0));
    assert_eq!(deer[4].behavior.force, v(0, 0));
    let mut deer = herd();
    deer_alignment(&mut deer, &steering(), &settings(2), &full);
    assert_eq!(deer[0].behavior.force, v(139, 143));
    let mut deer = herd();
    deer_cohesion(&mut deer, &steering(), &settings(2), &full);
    assert_eq!(deer[0].behavior.force, v(117, 161));
    deer_alignment(&mut deer, &steering(), &settings(2), &full);
    assert_eq!(deer[0].behavior.force, v(117 + 139, 161 + 143));
}

#[test]
fn with_one_herd_of_two_the_deer_are_inert() {
    let one = groups(&[7]);
    let mut deer = herd();
    deer[0].behavior.force = v(50, 50);
    let before = deer.clone();
    let walls = FieldSize { width: 10_000, height: 10_000 }.walls();
    deer_wander_by(&mut deer, &settings(2), &one, &steering(), &vec![10, 10, 10, 10, 10]);
    deer_wander(&mut deer, &settings(2), &one, &steering(), &mut StdRng::seed_from_u64(1));
    deer_flee(&mut deer, &vec![Threat { position: v(20_000, 0) }], &settings(2), &one, &steering());
    deer_alignment(&mut deer, &steering(), &settings(2), &one);
    deer_cohesion(&mut deer, &steering(), &settings(2), &one);
    deer_separation(&mut deer, &steering(), &settings(2), &one);
    deer_evade_walls(&mut deer, &settings(2), &one, &steering(), &walls.value);
    deer_evade(&mut deer, &vec![wolf_at(v(20_000, 0), v(0, 0))], &settings(2), &one, &steering());
    deer_move(&mut deer, &settings(2), &one);
    assert_eq!(deer, before);
    let two = groups(&[7, 8]);
    deer_move(&mut deer, &settings(2), &two);
    assert_ne!(deer, before);
    assert_eq!(deer[0].behavior.force, v(0, 0));
}

#[test]
fn deer_spawn_herd_places_the_herd_and_lists_it() {
    let mut deer = vec![deer_at(v(1, 1), v(0, -2000), 3)];
    let mut herds = groups(&[3]);
    let places = vec![v(10, 10), v(20, 20), v(30, 30)];
    deer_spawn_herd(&mut deer, &mut herds, &settings(2), 77, &places);
    assert_eq!(herds.groups.len(), 2);
    assert_eq!(herds.groups[1], DeerGroup { id: 77, count: 3 });
    assert_eq!(deer.len(), 4);
    assert_eq!(deer[0], deer_at(v(1, 1), v(0, -2000), 3));
    assert_eq!(deer[1], deer_at(v(10, 10), v(0, -2000), 77));
    assert_eq!(deer[3], deer_at(v(30, 30), v(0, -2000), 77));
    deer_spawn_herd(&mut deer, &mut herds, &settings(2), 78, &places);
    assert_eq!(herds.groups.len(), 2);
    assert_eq!(deer.len(), 4);
}

#[test]
fn deer_spawn_makes_herds_of_three_to_seven_near_one_origin() {
    let field = FieldSize { width: 1_200_000, height: 700_000 };
    let mut rng = StdRng::seed_from_u64(31);
    let mut sizes = Vec::new();
    for _ in 0..30 {
        let mut deer = Vec::new();
        let mut herds = groups(&[]);
        deer_spawn(&mut deer, &mut herds, &field, &settings(1), &mut rng);
        assert_eq!(herds.groups.len(), 1);
        let count = herds.groups[0].count as usize;
        assert!((3..8).contains(&count));
        assert_eq!(deer.len(), count);
        let min_x = deer.iter().map(|d| d.position.x).min().unwrap();
        let max_x = deer.iter().map(|d| d.position.x).max().unwrap();
        let min_y = deer.iter().map(|d| d.position.y).min().unwrap();
        let max_y = deer.iter().map(|d| d.position.y).max().unwrap();
        assert!(max_x - min_x < 60_000 && max_y - min_y < 60_000);
        assert!(-570_000 <= min_x && max_x < 570_000);
        assert!(-320_000 <= min_y && max_y < 320_000);
        for d in &deer {
            assert_eq!(*d, deer_at(d.position, v(0, -2000), herds.groups[0].id));
        }
        sizes.push(count);
        deer_spawn(&mut deer, &mut herds, &field, &settings(1), &mut rng);
        assert_eq!(herds.groups.len(), 1);
        assert_eq!(deer.len(), count);
    }
    assert!(sizes.iter().any(|s| *s != sizes[0]));
}

#[test]
fn deer_spawn_with_target_zero_never_spawns() {
    let mut deer = Vec::new();
    let mut herds = groups(&[]);
    let field = FieldSize { width: 0, height: 0 };
    deer_spawn(&mut deer, &mut herds, &field, &settings(0), &mut StdRng::seed_from_u64(2));
    assert!(deer.is_empty());
    assert!(herds.groups.is_empty());
}

#[test]
fn deer_move_consumes_the_force() {
    let mut deer = vec![deer_at(v(1000, 1000), v(0, -1000), 7)];
    deer[0].behavior.force = v(600, 0);
    deer_move(&mut deer, &settings(1), &groups(&[7]));
    assert_eq!(deer[0].physics.velocity, v(600, -1000));
    assert_eq!(deer[0].position, v(1600, 0));
    assert_eq!(deer[0].behavior.force, v(0, 0));
    deer[0].behavior.force = v(5000, 0);
    deer_move(&mut deer, &settings(1), &groups(&[7]));
    let vel = deer[0].physics.velocity;
    assert!((vel.x as i64) * (vel.x as i64) + (vel.y as i64) * (vel.y as i64) <= 1500 * 1500);
}

#[test]
fn deer_wander_by_skips_deer_of_unlisted_herds() {
    let mut deer = vec![deer_at(v(0, 0), v(0, -2000), 7), deer_at(v(5, 5), v(0, -2000), 99), deer_at(v(9, 9), v(0, -2000), 8)];
    deer_wander_by(&mut deer, &settings(2), &groups(&[7, 8]), &steering(), &vec![-71, 50, 29]);
    assert_eq!(deer[0].physics.wander_theta, 1500);
    assert_eq!(deer[0].behavior.force, v(44, -143));
    assert_eq!(deer[1], deer_at(v(5, 5), v(0, -2000), 99));
    assert_eq!(deer[2].physics.wander_theta, 1600);
}

#[test]
fn deer_wander_draws_within_the_range() {
    let mut deer: Vec<Deer> = (0..40).map(|i| deer_at(v(i, 0), v(0, -2000), 7)).collect();
    deer_wander(&mut deer, &settings(1), &groups(&[7]), &steering(), &mut StdRng::seed_from_u64(4));
    for d in &deer {
        let moved = d.physics.wander_theta - 1571;
        assert!(-300 <= moved && moved < 300);
    }
    assert!(deer.iter().any(|d| d.physics.wander_theta != deer[0].physics.wander_theta));
}

#[test]
fn deer_flee_from_threats_within_one_hundred_units() {
    let mut deer = vec![deer_at(v(0, 0), v(0, -2000), 7)];
    let threats = vec![
        Threat { position: v(50_000, 0) },
        Threat { position: v(0, 0) },
        Threat { position: v(0, -99_999) },
        Threat { position: v(100_000, 0) },
    ];
    deer_flee(&mut deer, &threats, &settings(1), &groups(&[7]), &steering());
    assert_eq!(deer[0].behavior.force, v(-900, 2700));
    assert_eq!(deer[0].speed.value, 90_000);
}

#[test]
fn deer_evade_wolves_within_one_hundred_and_eighty_units() {
    let mut deer = vec![deer_at(v(0, 0), v(0, -2000), 7)];
    deer_evade(&mut deer, &vec![wolf_at(v(180_000, 0), v(0, 1500))], &settings(1), &groups(&[7]), &steering());
    assert_eq!(deer[0].behavior.force, v(-1060, 940));
    let mut deer = vec![deer_at(v(0, 0), v(0, -2000), 7)];
    deer_evade(&mut deer, &vec![wolf_at(v(180_001, 0), v(0, 1500))], &settings(1), &groups(&[7]), &steering());
    assert_eq!(deer[0].behavior.force, v(0, 0));
}

#[test]
fn evasion_does_not_round_the_distance_down() {
    let mut deer = vec![deer_at(v(0, 0), v(0, -2000), 7)];
    deer_evade(&mut deer, &vec![wolf_at(v(180_000, 425), v(0, 0))], &settings(1), &groups(&[7]), &steering());
    assert_eq!(deer[0].behavior.force, v(0, 0));
    deer_evade(&mut deer, &vec![wolf_at(v(108_000, 144_000), v(0, 0))], &settings(1), &groups(&[7]), &steering());
    assert_ne!(deer[0].behavior.force, v(0, 0));
}

#[test]
fn wandering_without_deer_needs_no_range() {
    let mut deer: Vec<Deer> = Vec::new();
    let mut data = steering();
    data.wander.displace_range = 0;
    let mut zero = settings(0);
    zero.max_number = 0;
    deer_wander(&mut deer, &zero, &groups(&[]), &data, &mut StdRng::seed_from_u64(4));
    assert!(deer.is_empty());
}

#[test]
fn deer_evade_walls_pushes_back() {
    let walls = FieldSize { width: 1_200_000, height: 700_000 }.walls();
    let mut deer = vec![deer_at(v(0, -330_000), v(0, -2000), 7)];
    deer_evade_walls(&mut deer, &settings(1), &groups(&[7]), &steering(), &walls.value);
    assert_eq!(deer[0].behavior.force, v(0, 1500));
}

#[test]
fn deer_die_removes_the_caught_and_feeds_the_wolf() {
    let mut deer = vec![deer_at(v(0, 0), v(0, 0), 7), deer_at(v(300_000, 0), v(0, 0), 7), deer_at(v(-300_000, 0), v(0, 0), 7)];
    let mut wolves = vec![wolf_at(v(400_000, 0), v(0, 0)), wolf_at(v(310_000, 0), v(0, 0)), wolf_at(v(290_000, 0), v(0, 0))];
    let mut bullets = vec![Bullet {
        position: v(0, 41_999),
        physics: Physics { velocity: v(0, 0), acceleration: v(0, 0), wander_theta: 0 },
        duration: BulletDuration { shot_at: 0 },
    }];
    let wolf_data = WolfData { movement_speed: 120_000, width: 60_000, height: 60_000, max_number: 3 };
    let bullet_data = BulletData { width: 24_000, height: 24_000, movement_speed: 600_000, max_duration: 2000 };
    deer_die(&mut deer, &mut wolves, &mut bullets, &settings(1), &wolf_data, &bullet_data, 8000);
    assert_eq!(deer, vec![deer_at(v(-300_000, 0), v(0, 0), 7)]);
    assert_eq!(wolves[0].behavior.hunger_time, 100);
    assert_eq!(wolves[1].behavior.hunger_time, 8000);
    assert_eq!(wolves[2].behavior.hunger_time, 100);
    assert!(bullets.is_empty());
}
