//! Steering primitives: each maps an agent's state and a goal to a force.

use crate::angle::{rotate, rotated};
use crate::fixed::{abs, div, div_trunc, saturate, times};
use crate::utils::{
    dist, dist_spec, law_limit_bounded, law_set_mag_at_most, limit, limit_spec, set_mag,
    set_mag_spec,
};
use crate::vector::Vec2;
use vstd::prelude::*;

verus! {

/// What moves an agent: its velocity, the acceleration gathered for the coming
/// step, and the phase of its wandering.
#[derive(Clone, Copy, Debug, PartialEq, Eq, Structural)]
pub struct Physics {
    pub velocity: Vec2,
    pub acceleration: Vec2,
    pub wander_theta: i32,
}

/// The wander phase of a new agent: a quarter turn.
pub const START_THETA: i32 = 1571;

/// The second component of a new agent's velocity: two world units downward.
pub const START_DRIFT: i32 = -2_000;

impl Physics {
    /// The state of motion of a new agent.
    pub open spec fn start() -> Physics {
        Physics {
            velocity: Vec2 { x: 0, y: START_DRIFT },
            acceleration: Vec2::zero(),
            wander_theta: START_THETA,
        }
    }

    /// The state of motion of a new agent.
    pub fn initial() -> (r: Physics)
        ensures
            r == Physics::start(),
    {
        Physics {
            velocity: Vec2 { x: 0, y: START_DRIFT },
            acceleration: Vec2 { x: 0, y: 0 },
            wander_theta: START_THETA,
        }
    }
}

/// Tuning of the wander behaviour.
#[derive(Clone, Copy, Debug, PartialEq, Eq, Structural)]
pub struct WanderData {
    pub weight: i32,
    pub displace_range: i32,
    pub radius: i32,
    pub max_force: i32,
    pub distance: i32,
}

/// Tuning of the flight from threats.
#[derive(Clone, Copy, Debug, PartialEq, Eq, Structural)]
pub struct FleeData {
    pub weight: i32,
    pub max_flee_time: i32,
}

/// Tuning of the pursuit of prey.
#[derive(Clone, Copy, Debug, PartialEq, Eq, Structural)]
pub struct PursueData {
    pub weight: i32,
}

/// Tuning of the evasion of predators.
#[derive(Clone, Copy, Debug, PartialEq, Eq, Structural)]
pub struct EvadeData {
    pub weight: i32,
}

/// Tuning of the avoidance of walls.
#[derive(Clone, Copy, Debug, PartialEq, Eq, Structural)]
pub struct EvadeWallsData {
    pub weight: i32,
}

/// Tuning of one flocking rule.
#[derive(Clone, Copy, Debug, PartialEq, Eq, Structural)]
pub struct FlockingData {
    pub perception_radius: i32,
    pub max_force: i32,
}

/// The force that turns `velocity` toward the direction `desired` at full speed.
pub open spec fn steer_spec(desired: Vec2, velocity: Vec2, max_speed: int) -> Vec2 {
    limit_spec(set_mag_spec(desired, max_speed).minus(velocity), max_speed)
}

/// The force toward `target`.
pub open spec fn seek_spec(position: Vec2, velocity: Vec2, target: Vec2, max_speed: int) -> Vec2 {
    steer_spec(target.minus(position), velocity, max_speed)
}

/// The force away from `target`.
pub open spec fn flee_spec(position: Vec2, velocity: Vec2, target: Vec2, max_speed: int) -> Vec2 {
    steer_spec(position.minus(target), velocity, max_speed)
}

/// Where the target will be once the agent has covered, at full speed, the
/// distance that parts them now. An agent that cannot move expects no change.
pub open spec fn predicted(
    position: Vec2,
    target_position: Vec2,
    target_velocity: Vec2,
    max_speed: int,
) -> Vec2 {
    if max_speed == 0 {
        target_position
    } else {
        let d = dist_spec(position, target_position);
        target_position.plus(
            Vec2::of(
                div_trunc(target_velocity.x * d, max_speed),
                div_trunc(target_velocity.y * d, max_speed),
            ),
        )
    }
}

/// The radius of the wander circle laid along the heading; an agent at rest heads
/// along the first axis.
pub open spec fn heading_radius(velocity: Vec2, wander_radius: int) -> Vec2 {
    if velocity == Vec2::zero() {
        Vec2::of(wander_radius, 0)
    } else {
        set_mag_spec(velocity, wander_radius)
    }
}

/// The point the wandering agent steers toward: the centre of the circle,
/// `distance` ahead of `position`, displaced by the radius turned by
/// `wander_theta` from the heading.
pub open spec fn wander_point(
    position: Vec2,
    velocity: Vec2,
    wander_radius: int,
    distance: int,
    wander_theta: int,
) -> Vec2 {
    set_mag_spec(velocity, distance).plus(position).plus(
        rotated(heading_radius(velocity, wander_radius), wander_theta),
    )
}

/// The wander force: toward the wander point, always of length `max_force`.
pub open spec fn wander_spec(
    position: Vec2,
    velocity: Vec2,
    wander_radius: int,
    distance: int,
    wander_theta: int,
    max_force: int,
) -> Vec2 {
    set_mag_spec(
        wander_point(position, velocity, wander_radius, distance, wander_theta).minus(position),
        max_force,
    )
}

/// Steers toward `target`: the desired velocity points at the target at full speed,
/// and the force is its difference from the current velocity, capped at `max_speed`.
pub fn seek(position: Vec2, velocity: Vec2, target: Vec2, max_speed: i32) -> (steer: Vec2)
    ensures
        steer == seek_spec(position, velocity, target, max_speed as int),
{
    let desired = set_mag(target.sub(position), max_speed);
    limit(desired.sub(velocity), max_speed)
}

/// Steers away from `target`: as `seek`, with the desired velocity reversed.
pub fn flee(position: Vec2, velocity: Vec2, target: Vec2, max_speed: i32) -> (steer: Vec2)
    ensures
        steer == flee_spec(position, velocity, target, max_speed as int),
{
    let desired = set_mag(position.sub(target), max_speed);
    limit(desired.sub(velocity), max_speed)
}

/// Steers along a slowly turning course: toward a point on a circle of radius
/// `wander_radius` whose centre lies `distance` ahead, at the angle `wander_theta`
/// from the heading. The force always has length `max_force`.
pub fn wander(
    position: Vec2,
    velocity: Vec2,
    wander_radius: i32,
    distance: i32,
    wander_theta: i32,
    max_force: i32,
) -> (steer: Vec2)
    ensures
        steer == wander_spec(
            position,
            velocity,
            wander_radius as int,
            distance as int,
            wander_theta as int,
            max_force as int,
        ),
{
    let centre = set_mag(velocity, distance).add(position);
    let radius = if velocity.x == 0 && velocity.y == 0 {
        Vec2 { x: wander_radius, y: 0 }
    } else {
        set_mag(velocity, wander_radius)
    };
    let point = centre.add(rotate(radius, wander_theta));
    set_mag(point.sub(position), max_force)
}

/// The target's position extrapolated along its velocity.
pub fn predict(position: Vec2, target_position: Vec2, target_velocity: Vec2, max_speed: i32) -> (r:
    Vec2)
    ensures
        r == predicted(position, target_position, target_velocity, max_speed as int),
{
    if max_speed == 0 {
        return target_position;
    }
    let d: i32 = dist(position, target_position);
    let lead = Vec2 {
        x: saturate(div(times(target_velocity.x, d) as i128, max_speed as i128)),
        y: saturate(div(times(target_velocity.y, d) as i128, max_speed as i128)),
    };
    target_position.add(lead)
}

/// Steers toward the place where the target is expected to be.
pub fn pursue(
    position: Vec2,
    velocity: Vec2,
    target_position: Vec2,
    target_velocity: Vec2,
    max_speed: i32,
) -> (steer: Vec2)
    ensures
        steer == seek_spec(
            position,
            velocity,
            predicted(position, target_position, target_velocity, max_speed as int),
            max_speed as int,
        ),
{
    let future_position = predict(position, target_position, target_velocity, max_speed);
    seek(position, velocity, future_position, max_speed)
}

/// Steers away from the place where the target is expected to be.
pub fn evade(
    position: Vec2,
    velocity: Vec2,
    target_position: Vec2,
    target_velocity: Vec2,
    max_speed: i32,
) -> (steer: Vec2)
    ensures
        steer == flee_spec(
            position,
            velocity,
            predicted(position, target_position, target_velocity, max_speed as int),
            max_speed as int,
        ),
{
    let future_position = predict(position, target_position, target_velocity, max_speed);
    flee(position, velocity, future_position, max_speed)
}

/// No steering force toward or away from a target is longer than the speed it is
/// meant for, wherever the target lies and however fast the agent moves.
pub proof fn law_steering_is_bounded(desired: Vec2, velocity: Vec2, max_speed: int)
    requires
        i32::MIN <= max_speed <= i32::MAX,
    ensures
        steer_spec(desired, velocity, max_speed).norm_sq() <= max_speed * max_speed,
{
    law_limit_bounded(set_mag_spec(desired, max_speed).minus(velocity), max_speed);
}

/// The wander force is never longer than the force asked for.
pub proof fn law_wander_is_bounded(
    position: Vec2,
    velocity: Vec2,
    wander_radius: int,
    distance: int,
    wander_theta: int,
    max_force: int,
)
    requires
        i32::MIN <= max_force <= i32::MAX,
    ensures
        wander_spec(position, velocity, wander_radius, distance, wander_theta, max_force).norm_sq()
            <= max_force * max_force,
{
    law_set_mag_at_most(
        wander_point(position, velocity, wander_radius, distance, wander_theta).minus(position),
        max_force,
    );
}

/// A target at rest is expected to stay where it is, and so is every target for
/// an agent that cannot move.
pub proof fn law_prediction_of_rest(position: Vec2, target_position: Vec2, max_speed: int)
    ensures
        predicted(position, target_position, Vec2::zero(), max_speed) == target_position,
{
    if max_speed != 0 {
        let d = dist_spec(position, target_position);
        assert(0 * d == 0);
        assert(abs(0) / abs(max_speed) == 0) by (nonlinear_arith)
            requires
                abs(max_speed) > 0,
                abs(0) == 0,
        ;
    }
}

} // verus!
