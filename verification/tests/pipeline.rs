use hunter_game::components::{FieldSize, MovementSpeed, Prey, Threat};
use hunter_game::deer::{
    Behavior, Deer, DeerData, DeerGroup, DeerGroups, DeerPlugin, DeerSteeringData, GroupID,
};
use hunter_game::hare::{ActiveHares, Hare, HareBehavior, HareData, HarePlugin, HareSteeringData};
use hunter_game::player::{
    Bullet, BulletData, BulletDuration, Player, PlayerData, PlayerPlugin,
};
use hunter_game::steering::{
    EvadeData, EvadeWallsData, FleeData, FlockingData, Physics, PursueData, WanderData,
};
use hunter_game::vector::Vec2;
use hunter_game::wolf::{ActiveWolves, Wolf, WolfBehavior, WolfData, WolfPlugin, WolfSteeringData};
use hunter_game::world::World;
use rand::rngs::StdRng;
use rand::SeedableRng;

fn v(x: i32, y: i32) -> Vec2 {
    Vec2::new(x, y)
}

fn wander() -> WanderData {
    WanderData { weight: 500, displace_range: 300, radius: 25_000, max_force: 300, distance: 80_000 }
}

fn world(hare_target: u32, wolf_target: u32, herd_target: u32) -> World {
    let field = FieldSize { width: 1_200_000, height: 700_000 };
    let flock = FlockingData { perception_radius: 50_000, max_force: 200 };
    World {
        field,
        walls: field.walls(),
        hare_data: HareData { movement_speed: 100_000, width: 60_000, height: 60_000, max_number: hare_target },
        hare_steering: HareSteeringData {
            wander: wander(),
            flee: FleeData { weight: 1000, max_flee_time: 2000 },
            evade_walls: EvadeWallsData { weight: 1000 },
        },
        active_hares: ActiveHares::default(),
        hares: Vec::new(),
        wolf_data: WolfData { movement_speed: 120_000, width: 60_000, height: 60_000, max_number: wolf_target },
        wolf_steering: WolfSteeringData {
            wander: wander(),
            evade_walls: EvadeWallsData { weight: 1000 },
            pursue: PursueData { weight: 1000 },
        },
        active_wolves: ActiveWolves { count: 0 },
        wolves: Vec::new(),
        deer_data: DeerData { movement_speed: 90_000, width: 60_000, height: 60_000, max_number: 8, group_number: herd_target },
        deer_steering: DeerSteeringData {
            wander: wander(),
            evade_walls: EvadeWallsData { weight: 1000 },
            flee: FleeData { weight: 1000, max_flee_time: 0 },
            evade: EvadeData { weight: 1000 },
            separation: flock,
            alignment: flock,
            cohesion: flock,
        },
        deer_groups: DeerGroups { groups: Vec::new() },
        deer: Vec::new(),
        player_data: PlayerData { movement_speed: 200_000, width: 60_000, height: 60_000 },
        bullet_data: BulletData { width: 24_000, height: 24_000, movement_speed: 600_000, max_duration: 2000 },
        player: None,
        bullets: Vec::new(),
    }
}

fn hare_at(position: Vec2) -> Hare {
    Hare {
        position,
        physics: Physics::initial(),
        speed: MovementSpeed::new(100_000),
        behavior: HareBehavior { force: v(0, 0), flee_time: 0 },
    }
}

fn wolf_at(position: Vec2) -> Wolf {
    Wolf {
        position,
        physics: Physics::initial(),
        speed: MovementSpeed::new(120_000),
        behavior: WolfBehavior { force: v(0, 0), hunger_time: 0, max_hunger_time: 5000 },
    }
}

fn deer_at(position: Vec2, group: u32) -> Deer {
    Deer {
        position,
        physics: Physics::initial(),
        speed: MovementSpeed::new(90_000),
        behavior: Behavior { force: v(0, 0) },
        group: GroupID { value: group },
    }
}

fn hunter(position: Vec2) -> Player {
    Player { position, physics: Physics::initial(), speed: MovementSpeed::new(200_000) }
}

#[test]
fn world_lists_threats_in_order() {
    let mut w = world(1, 1, 1);
    w.hares = vec![hare_at(v(1, 1)), hare_at(v(2, 2))];
    w.wolves = vec![wolf_at(v(3, 3))];
    w.deer = vec![deer_at(v(9, 9), 1)];
    w.player = Some(hunter(v(4, 4)));
    let all: Vec<Vec2> = w.threats(true).iter().map(|t: &Threat| t.position).collect();
    assert_eq!(all, vec![v(1, 1), v(2, 2), v(3, 3), v(4, 4)]);
    let for_deer: Vec<Vec2> = w.threats(false).iter().map(|t| t.position).collect();
    assert_eq!(for_deer, vec![v(3, 3), v(4, 4)]);
    w.player = None;
    assert_eq!(w.threats(false).len(), 1);
}

#[test]
fn world_lists_prey_in_order() {
    let mut w = world(1, 1, 1);
    w.hares = vec![hare_at(v(1, 1))];
    w.wolves = vec![wolf_at(v(3, 3))];
    w.deer = vec![deer_at(v(9, 9), 1)];
    w.player = Some(hunter(v(4, 4)));
    let prey = w.prey();
    assert_eq!(
        prey,
        vec![
            Prey { position: v(1, 1), velocity: v(0, -2000) },
            Prey { position: v(9, 9), velocity: v(0, -2000) },
            Prey { position: v(4, 4), velocity: v(0, -2000) },
        ]
    );
}

#[test]
fn hare_step_runs_the_systems_in_order() {
    let mut w = world(1, 1, 1);
    w.active_hares.count = 1;
    w.hares = vec![hare_at(v(0, 0))];
    w.wolves = vec![wolf_at(v(90_000, 0))];
    HarePlugin.update_with(&mut w, 10_000, v(7, 7), &vec![-71]);
    assert_eq!(w.hares.len(), 1);
    let hare = w.hares[0];
    assert_eq!(hare.speed.value, 150_000);
    assert_eq!(hare.behavior.flee_time, 10_000);
    assert_eq!(hare.physics.wander_theta, 1500);
    assert_eq!(hare.physics.velocity, v(-1908, -582));
    assert_eq!(hare.position, v(-1908, -582));
    assert_eq!(hare.behavior.force, v(0, 0));
    assert_eq!(hare.physics.acceleration, v(0, 0));
    assert_eq!(w.active_hares.count, 1);
    assert_eq!(w.wolves, vec![wolf_at(v(90_000, 0))]);
}

#[test]
fn hare_step_spawns_first_and_keeps_the_rest_inert() {
    let mut w = world(3, 1, 1);
    w.wolves = vec![wolf_at(v(500_000, 0))];
    HarePlugin.update_with(&mut w, 10_000, v(7, 7), &vec![50]);
    assert_eq!(w.active_hares.count, 1);
    assert_eq!(w.hares, vec![hare_at(v(7, 7))]);
    HarePlugin.update_with(&mut w, 10_016, v(40_000, 7), &vec![50, 50]);
    assert_eq!(w.hares, vec![hare_at(v(7, 7)), hare_at(v(40_000, 7))]);
    HarePlugin.update_with(&mut w, 10_033, v(-300_000, 7), &vec![0, 0, 0]);
    assert_eq!(w.active_hares.count, 3);
    assert_eq!(w.hares.len(), 3);
    assert_ne!(w.hares[0], hare_at(v(7, 7)));
    assert_eq!(w.hares[0].speed.value, 150_000);
    assert_eq!(w.hares[2].speed.value, 100_000);
    assert_eq!(w.hares[2].position, v(-300_000, 7).add(w.hares[2].physics.velocity));
}

#[test]
fn hare_step_lets_the_wolf_eat_after_the_move() {
    let mut w = world(1, 1, 1);
    w.active_hares.count = 1;
    w.hares = vec![hare_at(v(0, 61_000))];
    w.wolves = vec![wolf_at(v(0, 0))];
    w.wolves[0].behavior.hunger_time = 5;
    w.hare_steering.flee.weight = 0;
    w.hare_steering.wander.weight = 0;
    HarePlugin.update_with(&mut w, 10_000, v(0, 0), &vec![0]);
    assert!(w.hares.is_empty());
    assert_eq!(w.wolves[0].behavior.hunger_time, 10_000);
}

#[test]
fn hare_step_with_random_input_keeps_its_promises() {
    let mut w = world(5, 1, 1);
    let mut rng = StdRng::seed_from_u64(77);
    for step in 0..5 {
        HarePlugin.update(&mut w, 1000 + step * 16, &mut rng);
    }
    assert_eq!(w.active_hares.count, 5);
    assert_eq!(w.hares.len(), 5);
    for hare in &w.hares {
        assert!(-575_000 <= hare.position.x && hare.position.x < 575_000);
        assert!(-325_000 <= hare.position.y && hare.position.y < 325_000);
        assert!((hare.physics.wander_theta - 1571).abs() <= 300);
        assert_eq!(hare.behavior.force, v(0, 0));
    }
    assert!(w.hares.iter().any(|h| h.physics.wander_theta != 1571));
}

#[test]
fn wolf_step_runs_the_systems_in_order() {
    let mut w = world(1, 1, 1);
    w.active_wolves.count = 1;
    w.wolves = vec![wolf_at(v(-60_000, 0))];
    w.hares = vec![hare_at(v(0, 0))];
    w.hares[0].physics.velocity = v(0, 0);
    w.wolf_steering.wander.weight = 0;
    WolfPlugin.update_with(&mut w, 4000, v(1, 1), &vec![29]);
    assert_eq!(w.wolves.len(), 1);
    let wolf = w.wolves[0];
    assert_eq!(wolf.physics.wander_theta, 1600);
    assert_eq!(wolf.physics.velocity, v(1414, -586));
    assert_eq!(wolf.position, v(-58_586, -586));
    assert_eq!(wolf.behavior.force, v(0, 0));
    assert_eq!(wolf.behavior.hunger_time, 4000);
    assert_eq!(w.hares.len(), 1);
    WolfPlugin.update_with(&mut w, 9000, v(1, 1), &vec![0]);
    assert_eq!(w.wolves.len(), 1);
    WolfPlugin.update_with(&mut w, 9001, v(1, 1), &vec![0]);
    assert!(w.wolves.is_empty());
    assert_eq!(w.active_wolves.count, 1);
    WolfPlugin.update_with(&mut w, 9002, v(1, 1), &vec![0]);
    assert!(w.wolves.is_empty());
}

#[test]
fn wolf_step_with_random_input_keeps_its_promises() {
    let mut w = world(1, 4, 1);
    let mut rng = StdRng::seed_from_u64(8);
    for step in 0..4 {
        WolfPlugin.update(&mut w, 1000 + step * 16, &mut rng);
    }
    assert_eq!(w.active_wolves.count, 4);
    assert_eq!(w.wolves.len(), 4);
    for wolf in &w.wolves {
        assert!((wolf.physics.wander_theta - 1571).abs() <= 300);
        assert_eq!(wolf.behavior.hunger_time, 1048);
    }
}

#[test]
fn deer_step_waits_for_the_second_herd() {
    let mut w = world(1, 1, 2);
    w.wolves = vec![wolf_at(v(500_000, 300_000))];
    let first = vec![v(0, 0), v(20_000, 0), v(0, 20_000)];
    DeerPlugin.update_with(&mut w, 1000, 7, &first, &vec![10, 10, 10]);
    assert_eq!(w.deer_groups.groups, vec![DeerGroup { id: 7, count: 3 }]);
    assert_eq!(w.deer, vec![deer_at(v(0, 0), 7), deer_at(v(20_000, 0), 7), deer_at(v(0, 20_000), 7)]);
    let second = vec![v(200_000, 0), v(220_000, 0), v(200_000, 20_000), v(210_000, 10_000)];
    DeerPlugin.update_with(&mut w, 1016, 8, &second, &vec![10, 10, 10, 10, 10, 10, 10]);
    assert_eq!(w.deer_groups.groups.len(), 2);
    assert_eq!(w.deer.len(), 7);
    for d in &w.deer {
        assert_eq!(d.physics.wander_theta, 1581);
        assert_eq!(d.behavior.force, v(0, 0));
        assert_ne!(d.physics.velocity, v(0, -2000));
    }
    DeerPlugin.update_with(&mut w, 1033, 9, &second, &vec![]);
    assert_eq!(w.deer_groups.groups.len(), 2);
    assert_eq!(w.deer.len(), 7);
}

#[test]
fn deer_step_with_random_input_keeps_its_promises() {
    let mut w = world(1, 1, 2);
    let mut rng = StdRng::seed_from_u64(12);
    DeerPlugin.update(&mut w, 1000, &mut rng);
    assert_eq!(w.deer_groups.groups.len(), 1);
    let first = w.deer.len();
    assert!((3..8).contains(&first));
    assert!(w.deer.iter().all(|d| d.physics == Physics::initial()));
    DeerPlugin.update(&mut w, 1016, &mut rng);
    assert_eq!(w.deer_groups.groups.len(), 2);
    assert!((first + 3..first + 8).contains(&w.deer.len()));
    for d in &w.deer {
        assert!((d.physics.wander_theta - 1571).abs() <= 300);
        let vel = d.physics.velocity;
        assert!((vel.x as i64) * (vel.x as i64) + (vel.y as i64) * (vel.y as i64) <= 1500 * 1500);
    }
}

#[test]
fn player_step_moves_bullets_then_meets_the_pack() {
    let mut w = world(1, 1, 1);
    w.player = Some(hunter(v(0, 0)));
    w.wolves = vec![wolf_at(v(20_000, 0))];
    w.bullets = vec![
        Bullet {
            position: v(0, 0),
            physics: Physics { velocity: v(0, 10_000), acceleration: v(0, 0), wander_theta: 0 },
            duration: BulletDuration { shot_at: 500 },
        },
        Bullet {
            position: v(0, 0),
            physics: Physics { velocity: v(0, 10_000), acceleration: v(0, 0), wander_theta: 0 },
            duration: BulletDuration { shot_at: 0 },
        },
    ];
    PlayerPlugin.update(&mut w, 2000);
    assert_eq!(w.bullets.len(), 1);
    assert_eq!(w.bullets[0].position, v(0, 10_000));
    assert_eq!(w.player, None);
    assert_eq!(w.wolves[0].behavior.hunger_time, 2000);
}

#[test]
fn stale_force_never_survives_a_step() {
    let mut w = world(1, 1, 1);
    w.active_hares.count = 1;
    w.active_wolves.count = 1;
    w.deer_groups.groups = vec![DeerGroup { id: 1, count: 3 }];
    w.hares = vec![hare_at(v(0, 0))];
    w.wolves = vec![wolf_at(v(300_000, 0))];
    w.deer = vec![deer_at(v(-300_000, 0), 1)];
    w.hares[0].behavior.force = v(900, 900);
    w.wolves[0].behavior.force = v(900, 900);
    w.deer[0].behavior.force = v(900, 900);
    HarePlugin.update_with(&mut w, 1000, v(0, 0), &vec![0]);
    WolfPlugin.update_with(&mut w, 1000, v(0, 0), &vec![0]);
    DeerPlugin.update_with(&mut w, 1000, 0, &vec![], &vec![0]);
    assert_eq!(w.hares[0].behavior.force, v(0, 0));
    assert_eq!(w.wolves[0].behavior.force, v(0, 0));
    assert_eq!(w.deer[0].behavior.force, v(0, 0));
    assert_eq!(w.hares[0].physics.acceleration, v(0, 0));
}
