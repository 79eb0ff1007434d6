//! The hunter and the bullets: how long a bullet flies, and what becomes of the
//! hunter when a wolf reaches them.

use crate::components::MovementSpeed;
use crate::predation::{bitten, fed_on, feed_first};
use crate::fixed::abs;
use crate::steering::{Physics, START_DRIFT};
use crate::utils::{set_mag, set_mag_spec};
use crate::vector::Vec2;
use crate::wolf::{Wolf, WolfData};
use crate::world::World;
use vstd::prelude::*;

verus! {

/// The settings of the hunter.
#[derive(Clone, Copy, Debug, PartialEq, Eq, Structural)]
pub struct PlayerData {
    pub movement_speed: i32,
    pub width: i32,
    pub height: i32,
}

/// The settings of the bullets.
#[derive(Clone, Copy, Debug, PartialEq, Eq, Structural)]
pub struct BulletData {
    pub width: i32,
    pub height: i32,
    pub movement_speed: i32,
    pub max_duration: i32,
}

/// When a bullet was fired.
#[derive(Clone, Copy, Debug, PartialEq, Eq, Structural)]
pub struct BulletDuration {
    pub shot_at: i32,
}

/// The hunter.
#[derive(Clone, Copy, Debug, PartialEq, Eq, Structural)]
pub struct Player {
    pub position: Vec2,
    pub physics: Physics,
    pub speed: MovementSpeed,
}

/// One bullet in flight.
#[derive(Clone, Copy, Debug, PartialEq, Eq, Structural)]
pub struct Bullet {
    pub position: Vec2,
    pub physics: Physics,
    pub duration: BulletDuration,
}

impl PlayerData {
    /// The size of the hunter's box.
    pub open spec fn size(self) -> Vec2 {
        Vec2 { x: self.width, y: self.height }
    }
}

impl BulletData {
    /// The size of a bullet's box.
    pub open spec fn size(self) -> Vec2 {
        Vec2 { x: self.width, y: self.height }
    }
}

impl Bullet {
    /// Whether the bullet is still in flight at `now`.
    pub open spec fn flying(self, data: BulletData, now: i32) -> bool {
        now < self.duration.shot_at + data.max_duration
    }

    /// The bullet one step further along its course.
    pub open spec fn advanced(self) -> Bullet {
        Bullet {
            position: self.position.plus(self.physics.velocity),
            physics: self.physics,
            duration: self.duration,
        }
    }
}

impl Player {
    /// The hunter as they enter the arena at `position`.
    pub open spec fn placed(position: Vec2, settings: PlayerData) -> Player {
        Player {
            position,
            physics: Physics {
                velocity: Vec2 { x: 0, y: START_DRIFT },
                acceleration: Vec2::zero(),
                wander_theta: 0,
            },
            speed: MovementSpeed { value: settings.movement_speed },
        }
    }

    /// The direction along one axis that two opposite keys ask for: the second
    /// key wins over the first.
    pub open spec fn axis(back: bool, forth: bool) -> int {
        if forth {
            1
        } else if back {
            -1
        } else {
            0
        }
    }

    /// The hunter after one step with the given keys held: the velocity is one
    /// step's distance along each axis asked for, and the hunter has moved by it.
    pub open spec fn walked(self, left: bool, right: bool, up: bool, down: bool) -> Player {
        let velocity = Vec2::of(
            Player::axis(left, right) * self.speed.per_step_spec(),
            Player::axis(up, down) * -self.speed.per_step_spec(),
        );
        Player {
            position: self.position.plus(velocity),
            physics: Physics {
                velocity,
                acceleration: self.physics.acceleration,
                wander_theta: self.physics.wander_theta,
            },
            speed: self.speed,
        }
    }

    /// The bullet that the hunter fires at `now` in the direction `aim`: it starts
    /// at the hunter's place and covers a bullet's step along `aim` in each step.
    pub open spec fn fired(self, aim: Vec2, data: BulletData, now: i32) -> Bullet {
        Bullet {
            position: self.position,
            physics: Physics {
                velocity: set_mag_spec(
                    aim,
                    (MovementSpeed { value: data.movement_speed }).per_step_spec(),
                ),
                acceleration: Vec2::zero(),
                wander_theta: 0,
            },
            duration: BulletDuration { shot_at: now },
        }
    }
}

/// Lets the hunter enter the arena at `position`.
pub fn player_spawn(settings: &PlayerData, position: Vec2) -> (player: Player)
    ensures
        player == Player::placed(position, *settings),
{
    Player {
        position,
        physics: Physics {
            velocity: Vec2 { x: 0, y: START_DRIFT },
            acceleration: Vec2::origin(),
            wander_theta: 0,
        },
        speed: MovementSpeed::new(settings.movement_speed),
    }
}

/// Moves the hunter by one step along the axes that the keys held ask for: `right`
/// wins over `left`, and `down` over `up`. Both axes at once are faster than one.
pub fn player_move(player: &mut Player, left: bool, right: bool, up: bool, down: bool)
    ensures
        *final(player) == old(player).walked(left, right, up, down),
{
    let step: i32 = player.speed.per_step();
    assert(abs(60) == 60);
    assert(0 <= abs(player.speed.value as int) / 60 <= 0x4000_0000);
    let x: i32 = if right {
        step
    } else if left {
        -step
    } else {
        0
    };
    let y: i32 = if down {
        -step
    } else if up {
        step
    } else {
        0
    };
    let velocity = Vec2 { x, y };
    player.physics.velocity = velocity;
    player.position = player.position.add(velocity);
}

/// Fires one bullet from the hunter's place in the direction `aim`.
pub fn player_shoot(player: &Player, aim: Vec2, bullet_data: &BulletData, now: i32) -> (bullet:
    Bullet)
    ensures
        bullet == player.fired(aim, *bullet_data, now),
{
    Bullet {
        position: player.position,
        physics: Physics {
            velocity: set_mag(aim, MovementSpeed::new(bullet_data.movement_speed).per_step()),
            acceleration: Vec2::origin(),
            wander_theta: 0,
        },
        duration: BulletDuration { shot_at: now },
    }
}

/// The bullets that are left of the first `n`, each one step further on, once
/// those whose time is up have gone.
pub open spec fn after_flight(bullets: Seq<Bullet>, data: BulletData, now: i32, n: int) -> Seq<
    Bullet,
>
    decreases n,
{
    if n <= 0 {
        Seq::empty()
    } else if bullets[n - 1].flying(data, now) {
        after_flight(bullets, data, now, n - 1).push(bullets[n - 1].advanced())
    } else {
        after_flight(bullets, data, now, n - 1)
    }
}

/// Moves every bullet one step along its course and removes those that have been
/// in flight for as long as a bullet lasts.
pub fn bullet_fly(bullets: &mut Vec<Bullet>, bullet_data: &BulletData, now: i32)
    ensures
        final(bullets)@ == after_flight(old(bullets)@, *bullet_data, now, old(bullets)@.len() as int),
{
    let mut flying: Vec<Bullet> = Vec::new();
    let mut i: usize = 0;
    while i < bullets.len()
        invariant
            i <= bullets.len(),
            bullets@ == old(bullets)@,
            flying@ == after_flight(old(bullets)@, *bullet_data, now, i as int),
        decreases bullets.len() - i,
    {
        let bullet = bullets[i];
        if (now as i64) < bullet.duration.shot_at as i64 + bullet_data.max_duration as i64 {
            flying.push(
                Bullet {
                    position: bullet.position.add(bullet.physics.velocity),
                    physics: bullet.physics,
                    duration: bullet.duration,
                },
            );
        }
        i += 1;
    }
    *bullets = flying;
}

/// Lets the pack meet the hunter: where a wolf's box overlaps the hunter's, the
/// hunter is gone and the first such wolf has fed at `now`.
pub fn player_die(
    player: &mut Option<Player>,
    wolves: &mut Vec<Wolf>,
    player_data: &PlayerData,
    wolf_data: &WolfData,
    now: i32,
)
    ensures
        *old(player) is None ==> *final(player) is None && final(wolves)@ == old(wolves)@,
        *old(player) is Some ==> final(wolves)@ == fed_on(
            old(wolves)@,
            wolf_data.size(),
            (*old(player))->0.position,
            player_data.size(),
            now,
        ) && *final(player) == if bitten(
            old(wolves)@,
            wolf_data.size(),
            (*old(player))->0.position,
            player_data.size(),
        ) {
            None
        } else {
            *old(player)
        },
{
    match *player {
        Some(hunter) => {
            let eaten = feed_first(
                wolves,
                Vec2 { x: wolf_data.width, y: wolf_data.height },
                hunter.position,
                Vec2 { x: player_data.width, y: player_data.height },
                now,
            );
            if eaten {
                *player = None;
            }
        },
        None => {},
    }
}

/// The systems of the hunter that need no input, run in their fixed order.
pub struct PlayerPlugin;

impl PlayerPlugin {
    /// Whether `post` is `pre` after one step of the bullets and of the pack
    /// meeting the hunter, and nothing else has changed.
    pub open spec fn stepped(pre: World, post: World, now: i32) -> bool {
        &&& post.same_rules(pre)
        &&& post.bullets@ == after_flight(
            pre.bullets@,
            pre.bullet_data,
            now,
            pre.bullets@.len() as int,
        )
        &&& pre.player is None ==> post.player is None && post.wolves@ == pre.wolves@
        &&& pre.player is Some ==> post.wolves@ == fed_on(
            pre.wolves@,
            pre.wolf_data.size(),
            pre.player->0.position,
            pre.player_data.size(),
            now,
        ) && post.player == if bitten(
            pre.wolves@,
            pre.wolf_data.size(),
            pre.player->0.position,
            pre.player_data.size(),
        ) {
            None
        } else {
            pre.player
        }
        &&& post.active_wolves == pre.active_wolves
        &&& post.active_hares == pre.active_hares
        &&& post.hares@ == pre.hares@
        &&& post.deer@ == pre.deer@
        &&& post.deer_groups.groups@ == pre.deer_groups.groups@
    }

    /// Lets the bullets fly for one step, then lets the pack meet the hunter.
    pub fn update(&self, world: &mut World, now: i32)
        ensures
            Self::stepped(*old(world), *final(world), now),
    {
        bullet_fly(&mut world.bullets, &world.bullet_data, now);
        player_die(
            &mut world.player,
            &mut world.wolves,
            &world.player_data,
            &world.wolf_data,
            now,
        );
    }
}

} // verus!
