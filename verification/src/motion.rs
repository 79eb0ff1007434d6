//! The steps that every species takes in the same way: integrating the gathered
//! force, wandering, and keeping away from walls.

use crate::components::{MovementSpeed, WallData};
use crate::fixed::{abs, clamp, saturate};
use crate::random::draw_between;
use crate::steering::{flee, flee_spec, wander, wander_spec, Physics, WanderData};
use crate::utils::{
    crosses_ahead, crossing_point, is_within, law_limit_bounded, limit, limit_spec,
    line_line_intersection, within,
};
use crate::vector::Vec2;
use rand::rngs::StdRng;
use vstd::prelude::*;

verus! {

/// The distance within which a wall ahead is avoided: 40 world units.
pub const WALL_RANGE: i32 = 40_000;

/// The velocity after one step: the old one plus the gathered acceleration and
/// the force of this step, capped at the distance the agent may cover in a step.
pub open spec fn next_velocity(physics: Physics, force: Vec2, speed: MovementSpeed) -> Vec2 {
    limit_spec(
        physics.velocity.plus(physics.acceleration.plus(force)),
        speed.per_step_spec(),
    )
}

/// The state of motion after one step: the new velocity, no acceleration left,
/// the wander phase untouched.
pub open spec fn next_physics(physics: Physics, force: Vec2, speed: MovementSpeed) -> Physics {
    Physics {
        velocity: next_velocity(physics, force, speed),
        acceleration: Vec2::zero(),
        wander_theta: physics.wander_theta,
    }
}

/// The position after one step.
pub open spec fn next_position(
    position: Vec2,
    physics: Physics,
    force: Vec2,
    speed: MovementSpeed,
) -> Vec2 {
    position.plus(next_velocity(physics, force, speed))
}

/// Advances an agent by one step: the force is consumed into the acceleration, the
/// acceleration into the velocity, the velocity is capped and moves the agent, and
/// the acceleration is cleared.
pub fn integrate(position: Vec2, physics: Physics, force: Vec2, speed: MovementSpeed) -> (r: (
    Vec2,
    Physics,
))
    ensures
        r.0 == next_position(position, physics, force, speed),
        r.1 == next_physics(physics, force, speed),
{
    let acceleration = physics.acceleration.add(force);
    let velocity = limit(physics.velocity.add(acceleration), speed.per_step());
    (
        position.add(velocity),
        Physics { velocity, acceleration: Vec2::origin(), wander_theta: physics.wander_theta },
    )
}

/// However large the gathered force, an agent never covers more in one step than
/// its speed allows, and no force or acceleration is carried into the next step.
pub proof fn law_step_is_capped(physics: Physics, force: Vec2, speed: MovementSpeed)
    ensures
        next_velocity(physics, force, speed).norm_sq() <= speed.per_step_spec()
            * speed.per_step_spec(),
        next_physics(physics, force, speed).acceleration == Vec2::zero(),
{
    assert(abs(60) == 60);
    assert(0 <= abs(speed.value as int) / 60 <= 0x8000_0000);
    law_limit_bounded(
        physics.velocity.plus(physics.acceleration.plus(force)),
        speed.per_step_spec(),
    );
}

/// The direction in which an agent with this velocity is drawn: the velocity
/// turned clockwise by a quarter turn.
pub fn facing(physics: &Physics) -> (r: Vec2)
    ensures
        r == physics.velocity.turned_right(),
{
    physics.velocity.turn_right()
}

/// The force gathered after wandering: the wander force, weighted, is added.
pub open spec fn wander_force(position: Vec2, physics: Physics, force: Vec2, data: WanderData) -> Vec2 {
    force.plus(
        wander_spec(
            position,
            physics.velocity,
            data.radius as int,
            data.distance as int,
            physics.wander_theta as int,
            data.max_force as int,
        ).scaled(data.weight as int),
    )
}

/// The state of motion after wandering: the phase has moved by `displacement`.
pub open spec fn wander_physics(physics: Physics, displacement: int) -> Physics {
    Physics {
        velocity: physics.velocity,
        acceleration: physics.acceleration,
        wander_theta: clamp(physics.wander_theta + displacement) as i32,
    }
}

/// Lets one agent wander: adds the weighted wander force to `force` and moves the
/// wander phase on by `displacement`.
pub fn wander_step(
    position: Vec2,
    physics: Physics,
    force: Vec2,
    data: &WanderData,
    displacement: i32,
) -> (r: (Physics, Vec2))
    ensures
        r.0 == wander_physics(physics, displacement as int),
        r.1 == wander_force(position, physics, force, *data),
{
    let steer = wander(
        position,
        physics.velocity,
        data.radius,
        data.distance,
        physics.wander_theta,
        data.max_force,
    );
    (
        Physics {
            velocity: physics.velocity,
            acceleration: physics.acceleration,
            wander_theta: saturate(physics.wander_theta as i128 + displacement as i128),
        },
        force.add(steer.scale(data.weight)),
    )
}

/// Whether the agent's look-ahead probe meets `wall` within range.
pub open spec fn wall_near(position: Vec2, velocity: Vec2, wall: WallData) -> bool {
    let probe = position.plus(velocity);
    &&& crosses_ahead(wall.point_a, wall.point_b, position, probe)
    &&& within(
        position,
        crossing_point(wall.point_a, wall.point_b, position, probe),
        WALL_RANGE as int,
    )
}

/// The force that pushes the agent away from the point where its probe meets `wall`.
pub open spec fn wall_push(
    position: Vec2,
    velocity: Vec2,
    speed: MovementSpeed,
    weight: int,
    wall: WallData,
) -> Vec2 {
    flee_spec(
        position,
        velocity,
        crossing_point(wall.point_a, wall.point_b, position, position.plus(velocity)),
        speed.per_step_spec(),
    ).scaled(weight)
}

/// The force gathered after the first `n` walls: each wall that the probe meets
/// within range adds its push.
pub open spec fn walls_force(
    force: Vec2,
    position: Vec2,
    velocity: Vec2,
    speed: MovementSpeed,
    weight: int,
    walls: Seq<WallData>,
    n: int,
) -> Vec2
    decreases n,
{
    if n <= 0 {
        force
    } else {
        let before = walls_force(force, position, velocity, speed, weight, walls, n - 1);
        if wall_near(position, velocity, walls[n - 1]) {
            before.plus(wall_push(position, velocity, speed, weight, walls[n - 1]))
        } else {
            before
        }
    }
}

/// Adds to `force` the push of every wall that the agent is about to run into.
/// The pushes of two walls near a corner add up.
pub fn evade_walls(
    force: Vec2,
    position: Vec2,
    velocity: Vec2,
    speed: MovementSpeed,
    weight: i32,
    walls: &Vec<WallData>,
) -> (r: Vec2)
    ensures
        r == walls_force(force, position, velocity, speed, weight as int, walls@, walls@.len() as int),
{
    let mut acc = force;
    let mut i: usize = 0;
    while i < walls.len()
        invariant
            i <= walls.len(),
            acc == walls_force(force, position, velocity, speed, weight as int, walls@, i as int),
        decreases walls.len() - i,
    {
        let wall = walls[i];
        let probe = position.add(velocity);
        match line_line_intersection(wall.point_a, wall.point_b, position, probe) {
            Ok(point) => {
                if is_within(position, point, WALL_RANGE) {
                    let push = flee(position, velocity, point, speed.per_step());
                    acc = acc.add(push.scale(weight));
                }
            },
            Err(_) => {},
        }
        i += 1;
    }
    acc
}

/// The displacement meant for the agent at `index`; none where the list is short.
pub open spec fn displacement_at(displacements: Seq<i32>, index: int) -> int {
    if 0 <= index < displacements.len() {
        displacements[index] as int
    } else {
        0
    }
}

/// Whether every displacement lies within `range` on either side of zero.
pub open spec fn within_range(displacements: Seq<i32>, range: int) -> bool {
    forall|i: int| 0 <= i < displacements.len() ==> -range <= #[trigger] displacements[i] < range
}

/// Draws one displacement of the wander phase for each of `count` agents, each
/// within `range` on either side of zero. For no agent nothing is drawn, whatever
/// the range.
pub fn draw_displacements(count: usize, range: i32, rng: &mut StdRng) -> (r: Vec<i32>)
    requires
        count > 0 ==> range > 0,
    ensures
        r@.len() == count,
        within_range(r@, range as int),
{
    let mut displacements: Vec<i32> = Vec::new();
    let mut i: usize = 0;
    while i < count
        invariant
            i <= count,
            count > 0 ==> range > 0,
            displacements@.len() == i,
            forall|j: int| 0 <= j < i ==> -range <= #[trigger] displacements@[j] < range,
        decreases count - i,
    {
        let d: i64 = draw_between(rng, -(range as i64), range as i64);
        displacements.push(d as i32);
        i += 1;
    }
    displacements
}

} // verus!
