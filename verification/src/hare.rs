//! The hare: it wanders, keeps off the walls, and runs, faster than usual, from
//! every threat that comes near.

use crate::components::{FieldSize, MovementSpeed, Threat, WallData};
use crate::fixed::{clamp, saturate};
use crate::motion::{
    displacement_at, draw_displacements, evade_walls, integrate, next_physics, next_position,
    walls_force, wander_force, wander_physics, wander_step, within_range,
};
use crate::player::{Bullet, BulletData};
use crate::predation::{
    bullets_left, caught, fed_on_all, kept, law_kept_selects, resolve_collisions,
};
use crate::steering::{flee, flee_spec, EvadeWallsData, FleeData, Physics, WanderData};
use crate::utils::{dist, dist_spec};
use crate::vector::Vec2;
use crate::wolf::{Wolf, WolfData};
use crate::world::{threats_to_hares, World};
use rand::rngs::StdRng;
use vstd::prelude::*;

verus! {

/// The distance within which a hare runs from a threat: 100 world units.
pub const FLEE_RADIUS: i32 = 100_000;

/// What a running hare gains in speed: 50 world units per second.
pub const FLEE_BOOST: i32 = 50_000;

/// The width of the strip along the walls in which no hare is placed: 30 world units.
pub const HARE_MARGIN: i32 = 30_000;

/// The settings of the species.
#[derive(Clone, Copy, Debug, PartialEq, Eq, Structural)]
pub struct HareData {
    pub movement_speed: i32,
    pub width: i32,
    pub height: i32,
    pub max_number: u32,
}

/// The tuning of the hare's behaviours.
#[derive(Clone, Copy, Debug, PartialEq, Eq, Structural)]
pub struct HareSteeringData {
    pub wander: WanderData,
    pub flee: FleeData,
    pub evade_walls: EvadeWallsData,
}

/// The force gathered in this step and the time of the last flight. A `flee_time`
/// of zero means that the hare is not in flight.
#[derive(Clone, Copy, Debug, PartialEq, Eq, Structural)]
pub struct HareBehavior {
    pub force: Vec2,
    pub flee_time: i32,
}

/// How many hares have been placed so far.
#[derive(Clone, Copy, Debug, PartialEq, Eq, Structural)]
pub struct ActiveHares {
    pub count: u32,
}

impl Default for ActiveHares {
    fn default() -> (r: Self)
        ensures
            r.count == 0,
    {
        Self { count: 0 }
    }
}

/// One hare.
#[derive(Clone, Copy, Debug, PartialEq, Eq, Structural)]
pub struct Hare {
    pub position: Vec2,
    pub physics: Physics,
    pub speed: MovementSpeed,
    pub behavior: HareBehavior,
}

impl HareData {
    /// The size of a hare's box.
    pub open spec fn size(self) -> Vec2 {
        Vec2 { x: self.width, y: self.height }
    }
}

impl ActiveHares {
    /// Whether the population is complete, so that its members may act.
    pub open spec fn full(self, settings: HareData) -> bool {
        self.count >= settings.max_number
    }

    /// The count after the spawn step: one more while the population is not
    /// complete.
    pub open spec fn after_spawn(self, settings: HareData) -> ActiveHares {
        if self.full(settings) {
            self
        } else {
            ActiveHares { count: (self.count + 1) as u32 }
        }
    }
}

impl Hare {
    /// A hare as it is placed at `position`: drifting down, at rest from flight.
    pub open spec fn placed(position: Vec2, settings: HareData) -> Hare {
        Hare {
            position,
            physics: Physics::start(),
            speed: MovementSpeed { value: settings.movement_speed },
            behavior: HareBehavior { force: Vec2::zero(), flee_time: 0 },
        }
    }

    /// The hare after one step of motion, its force consumed.
    pub open spec fn moved(self) -> Hare {
        Hare {
            position: next_position(self.position, self.physics, self.behavior.force, self.speed),
            physics: next_physics(self.physics, self.behavior.force, self.speed),
            speed: self.speed,
            behavior: HareBehavior { force: Vec2::zero(), flee_time: self.behavior.flee_time },
        }
    }

    /// The hare with `force` in place of the force gathered so far.
    pub open spec fn with_force(self, force: Vec2) -> Hare {
        Hare {
            position: self.position,
            physics: self.physics,
            speed: self.speed,
            behavior: HareBehavior { force, flee_time: self.behavior.flee_time },
        }
    }

    /// The hare after wandering with the given displacement of its phase.
    pub open spec fn wandered(self, data: WanderData, displacement: int) -> Hare {
        Hare {
            position: self.position,
            physics: wander_physics(self.physics, displacement),
            speed: self.speed,
            behavior: HareBehavior {
                force: wander_force(self.position, self.physics, self.behavior.force, data),
                flee_time: self.behavior.flee_time,
            },
        }
    }

    /// Whether the hare's flight, if any, is over at `now`.
    pub open spec fn calmed(self, data: FleeData, now: i32) -> bool {
        now >= self.behavior.flee_time + data.max_flee_time
    }

    /// The hare back at its usual speed if its flight is over at `now`.
    pub open spec fn rested(self, settings: HareData, data: FleeData, now: i32) -> Hare {
        if self.calmed(data, now) {
            Hare {
                position: self.position,
                physics: self.physics,
                speed: MovementSpeed { value: settings.movement_speed },
                behavior: HareBehavior { force: self.behavior.force, flee_time: 0 },
            }
        } else {
            self
        }
    }

    /// Whether `threat` is another agent close enough to run from.
    pub open spec fn scared_by(self, threat: Threat) -> bool {
        threat.position != self.position && dist_spec(self.position, threat.position)
            < FLEE_RADIUS
    }

    /// The speed of a hare in flight.
    pub open spec fn flight_speed(settings: HareData) -> MovementSpeed {
        MovementSpeed { value: clamp(settings.movement_speed + FLEE_BOOST) as i32 }
    }

    /// The hare after it has noticed `threat` at `now`. A threat at the hare's own
    /// place is the hare itself, and that one or a threat out of reach changes
    /// nothing. A threat within reach starts a flight: the hare speeds up, the time
    /// is noted, and the weighted force away from the threat is added.
    pub open spec fn fled(self, threat: Threat, settings: HareData, data: FleeData, now: i32) -> Hare {
        if self.scared_by(threat) {
            Hare {
                position: self.position,
                physics: self.physics,
                speed: Hare::flight_speed(settings),
                behavior: HareBehavior {
                    force: self.behavior.force.plus(
                        flee_spec(
                            self.position,
                            self.physics.velocity,
                            threat.position,
                            Hare::flight_speed(settings).per_step_spec(),
                        ).scaled(data.weight as int),
                    ),
                    flee_time: now,
                },
            }
        } else {
            self
        }
    }

    /// The hare after one evaluation at `now` as far as the first `n` threats: first
    /// a flight that is over ends, whatever threats there are; then the hare notices
    /// the threats, one after the other.
    pub open spec fn fled_all(
        self,
        threats: Seq<Threat>,
        settings: HareData,
        data: FleeData,
        now: i32,
        n: int,
    ) -> Hare
        decreases n,
    {
        if n <= 0 {
            self.rested(settings, data, now)
        } else {
            self.fled_all(threats, settings, data, now, n - 1).fled(
                threats[n - 1],
                settings,
                data,
                now,
            )
        }
    }
}

/// The hares after the spawn step: one more, at `position`, while the population
/// is not complete.
pub open spec fn hares_spawned(
    hares: Seq<Hare>,
    active: ActiveHares,
    settings: HareData,
    position: Vec2,
) -> Seq<Hare> {
    if active.full(settings) {
        hares
    } else {
        hares.push(Hare::placed(position, settings))
    }
}

/// The hares after the step of motion: every hare moved, once the population is
/// complete.
pub open spec fn hares_moved(hares: Seq<Hare>, active: ActiveHares, settings: HareData) -> Seq<
    Hare,
> {
    if active.full(settings) {
        hares.map_values(|h: Hare| h.moved())
    } else {
        hares
    }
}

/// The hares after wandering: once the population is complete, the hare at each
/// index has wandered with the displacement at the same index.
pub open spec fn hares_wandering(
    hares: Seq<Hare>,
    active: ActiveHares,
    settings: HareData,
    data: WanderData,
    displacements: Seq<i32>,
) -> Seq<Hare> {
    if active.full(settings) {
        Seq::new(hares.len(), |i: int| hares[i].wandered(data, displacement_at(displacements, i)))
    } else {
        hares
    }
}

/// The hares after one evaluation of the threats: once the population is
/// complete, every hare has rested if its flight was over, and has then noticed
/// every threat in turn.
pub open spec fn hares_fleeing(
    hares: Seq<Hare>,
    threats: Seq<Threat>,
    active: ActiveHares,
    settings: HareData,
    data: FleeData,
    now: i32,
) -> Seq<Hare> {
    if active.full(settings) {
        hares.map_values(
            |h: Hare| h.fled_all(threats, settings, data, now, threats.len() as int),
        )
    } else {
        hares
    }
}

/// The hares after the walls have pushed: once the population is complete, every
/// hare has gathered the push of each wall that it is about to run into.
pub open spec fn hares_walled(
    hares: Seq<Hare>,
    active: ActiveHares,
    settings: HareData,
    weight: int,
    walls: Seq<WallData>,
) -> Seq<Hare> {
    if active.full(settings) {
        hares.map_values(
            |h: Hare|
                h.with_force(
                    walls_force(
                        h.behavior.force,
                        h.position,
                        h.physics.velocity,
                        h.speed,
                        weight,
                        walls,
                        walls.len() as int,
                    ),
                ),
        )
    } else {
        hares
    }
}

/// The hares that no wolf and no bullet reaches, in their old order.
pub open spec fn hares_surviving(
    hares: Seq<Hare>,
    size: Vec2,
    wolves: Seq<Wolf>,
    wolf_size: Vec2,
    bullets: Seq<Bullet>,
    bullet_size: Vec2,
) -> Seq<Hare> {
    kept(
        hares,
        |h: Hare| !caught(wolves, wolf_size, bullets, bullet_size, h.position, size),
        hares.len() as int,
    )
}

/// The places of the hares.
pub open spec fn hare_positions(hares: Seq<Hare>) -> Seq<Vec2> {
    Seq::new(hares.len(), |i: int| hares[i].position)
}

/// What one evaluation does to a hare, by whether one of the first `n` threats is
/// within reach: the hare stays where it is and moves as it did; with no threat
/// in reach it has only rested; with one it flies at the raised speed since `now`.
pub proof fn lemma_flight(
    hare: Hare,
    threats: Seq<Threat>,
    settings: HareData,
    data: FleeData,
    now: i32,
    n: int,
)
    requires
        0 <= n <= threats.len(),
    ensures
        hare.fled_all(threats, settings, data, now, n).position == hare.position,
        hare.fled_all(threats, settings, data, now, n).physics == hare.physics,
        (forall|k: int| 0 <= k < n ==> !hare.scared_by(#[trigger] threats[k])) ==> hare.fled_all(
            threats,
            settings,
            data,
            now,
            n,
        ) == hare.rested(settings, data, now),
        (exists|k: int| 0 <= k < n && hare.scared_by(#[trigger] threats[k])) ==> hare.fled_all(
            threats,
            settings,
            data,
            now,
            n,
        ).speed == Hare::flight_speed(settings) && hare.fled_all(
            threats,
            settings,
            data,
            now,
            n,
        ).behavior.flee_time == now,
    decreases n,
{
    if n > 0 {
        lemma_flight(hare, threats, settings, data, now, n - 1);
        let before = hare.fled_all(threats, settings, data, now, n - 1);
        assert(before.scared_by(threats[n - 1]) == hare.scared_by(threats[n - 1]));
        if exists|k: int| 0 <= k < n && hare.scared_by(#[trigger] threats[k]) {
            let k = choose|k: int| 0 <= k < n && hare.scared_by(#[trigger] threats[k]);
            if !hare.scared_by(threats[n - 1]) {
                assert(0 <= k < n - 1 && hare.scared_by(threats[k]));
            }
        }
    }
}

/// A threat within reach puts the hare to flight, wherever it stands in the list:
/// after the evaluation the speed is the usual speed and the boost, and the time of
/// the flight is `now`.
pub proof fn law_flee_boost(
    hare: Hare,
    threats: Seq<Threat>,
    settings: HareData,
    data: FleeData,
    now: i32,
    k: int,
)
    requires
        0 <= k < threats.len(),
        hare.scared_by(threats[k]),
    ensures
        hare.fled_all(threats, settings, data, now, threats.len() as int).speed.value == clamp(
            settings.movement_speed + FLEE_BOOST,
        ),
        hare.fled_all(threats, settings, data, now, threats.len() as int).behavior.flee_time
            == now,
{
    lemma_flight(hare, threats, settings, data, now, threats.len() as int);
}

/// Once the flight has lasted its time, an evaluation with no threat within reach
/// brings the hare back to its usual speed and ends the flight, whether or not the
/// list holds any threat at all; the force gathered stays as it is.
pub proof fn law_flee_decay(
    hare: Hare,
    threats: Seq<Threat>,
    settings: HareData,
    data: FleeData,
    now: i32,
)
    requires
        forall|k: int| 0 <= k < threats.len() ==> !hare.scared_by(#[trigger] threats[k]),
        hare.calmed(data, now),
    ensures
        hare.fled_all(threats, settings, data, now, threats.len() as int).speed.value
            == settings.movement_speed,
        hare.fled_all(threats, settings, data, now, threats.len() as int).behavior.flee_time == 0,
        hare.fled_all(threats, settings, data, now, threats.len() as int).behavior.force
            == hare.behavior.force,
{
    lemma_flight(hare, threats, settings, data, now, threats.len() as int);
}

/// While the flight has not lasted its time, an evaluation with no threat within
/// reach leaves the hare as it is.
pub proof fn law_flee_lasts(
    hare: Hare,
    threats: Seq<Threat>,
    settings: HareData,
    data: FleeData,
    now: i32,
)
    requires
        forall|k: int| 0 <= k < threats.len() ==> !hare.scared_by(#[trigger] threats[k]),
        !hare.calmed(data, now),
    ensures
        hare.fled_all(threats, settings, data, now, threats.len() as int) == hare,
{
    lemma_flight(hare, threats, settings, data, now, threats.len() as int);
}

/// Places one hare at `position` while the population is not complete, and counts it.
pub fn hare_spawn_at(
    hares: &mut Vec<Hare>,
    active_hares: &mut ActiveHares,
    settings: &HareData,
    position: Vec2,
)
    ensures
        final(hares)@ == hares_spawned(old(hares)@, *old(active_hares), *settings, position),
        *final(active_hares) == old(active_hares).after_spawn(*settings),
{
    if active_hares.count < settings.max_number {
        hares.push(
            Hare {
                position,
                physics: Physics::initial(),
                speed: MovementSpeed::new(settings.movement_speed),
                behavior: HareBehavior { force: Vec2::origin(), flee_time: 0 },
            },
        );
        active_hares.count += 1;
    }
}

/// Places one hare at a random point of the arena, away from the walls, while the
/// population is not complete.
pub fn hare_spawn(
    hares: &mut Vec<Hare>,
    active_hares: &mut ActiveHares,
    field: &FieldSize,
    settings: &HareData,
    rng: &mut StdRng,
)
    requires
        !old(active_hares).full(*settings) ==> field.has_room(HARE_MARGIN as int),
    ensures
        *final(active_hares) == old(active_hares).after_spawn(*settings),
        old(active_hares).full(*settings) ==> final(hares)@ == old(hares)@,
        !old(active_hares).full(*settings) ==> exists|position: Vec2| #[trigger]
            field.holds(HARE_MARGIN as int, position) && final(hares)@ == hares_spawned(
                old(hares)@,
                *old(active_hares),
                *settings,
                position,
            ),
{
    if active_hares.count < settings.max_number {
        let position = field.random_point(HARE_MARGIN, rng);
        hare_spawn_at(hares, active_hares, settings, position);
    }
}

/// Moves every hare by one step once the population is complete: the gathered
/// force is consumed and cleared.
pub fn hare_move(hares: &mut Vec<Hare>, active_hares: &ActiveHares, settings: &HareData)
    ensures
        final(hares)@ == hares_moved(old(hares)@, *active_hares, *settings),
{
    if active_hares.count < settings.max_number {
        return ;
    }
    let mut i: usize = 0;
    while i < hares.len()
        invariant
            i <= hares.len(),
            hares@.len() == old(hares)@.len(),
            forall|j: int| 0 <= j < i ==> #[trigger] hares@[j] == old(hares)@[j].moved(),
            forall|j: int| i <= j < hares@.len() ==> #[trigger] hares@[j] == old(hares)@[j],
        decreases hares.len() - i,
    {
        let hare = hares[i];
        let (position, physics) = integrate(
            hare.position,
            hare.physics,
            hare.behavior.force,
            hare.speed,
        );
        hares[i] = Hare {
            position,
            physics,
            speed: hare.speed,
            behavior: HareBehavior { force: Vec2::origin(), flee_time: hare.behavior.flee_time },
        };
        i += 1;
    }
    assert(hares@ =~= hares_moved(old(hares)@, *active_hares, *settings));
}

/// Lets every hare wander once the population is complete, the phase of the hare
/// at each index moving on by the displacement at the same index.
pub fn hare_wander_by(
    hares: &mut Vec<Hare>,
    active_hares: &ActiveHares,
    settings: &HareData,
    behavior_data: &HareSteeringData,
    displacements: &Vec<i32>,
)
    ensures
        final(hares)@ == hares_wandering(
            old(hares)@,
            *active_hares,
            *settings,
            behavior_data.wander,
            displacements@,
        ),
{
    if active_hares.count < settings.max_number {
        return ;
    }
    let mut i: usize = 0;
    while i < hares.len()
        invariant
            i <= hares.len(),
            hares@.len() == old(hares)@.len(),
            forall|j: int|
                0 <= j < i ==> #[trigger] hares@[j] == old(hares)@[j].wandered(
                    behavior_data.wander,
                    displacement_at(displacements@, j),
                ),
            forall|j: int| i <= j < hares@.len() ==> #[trigger] hares@[j] == old(hares)@[j],
        decreases hares.len() - i,
    {
        let hare = hares[i];
        let displacement: i32 = if i < displacements.len() {
            displacements[i]
        } else {
            0
        };
        let (physics, force) = wander_step(
            hare.position,
            hare.physics,
            hare.behavior.force,
            &behavior_data.wander,
            displacement,
        );
        hares[i] = Hare {
            position: hare.position,
            physics,
            speed: hare.speed,
            behavior: HareBehavior { force, flee_time: hare.behavior.flee_time },
        };
        i += 1;
    }
    assert(hares@ =~= hares_wandering(old(hares)@, *active_hares, *settings, behavior_data.wander, displacements@));
}

/// Lets every hare wander once the population is complete, each phase moving on by
/// a random displacement within the configured range.
pub fn hare_wander(
    hares: &mut Vec<Hare>,
    active_hares: &ActiveHares,
    settings: &HareData,
    behavior_data: &HareSteeringData,
    rng: &mut StdRng,
)
    requires
        active_hares.full(*settings) && old(hares)@.len() > 0
            ==> behavior_data.wander.displace_range > 0,
    ensures
        !active_hares.full(*settings) ==> final(hares)@ == old(hares)@,
        active_hares.full(*settings) ==> exists|displacements: Seq<i32>|
            {
                &&& displacements.len() == old(hares)@.len()
                &&& #[trigger] within_range(displacements, behavior_data.wander.displace_range as int)
                &&& final(hares)@ == hares_wandering(
                    old(hares)@,
                    *active_hares,
                    *settings,
                    behavior_data.wander,
                    displacements,
                )
            },
{
    if active_hares.count < settings.max_number {
        return ;
    }
    let displacements = draw_displacements(hares.len(), behavior_data.wander.displace_range, rng);
    hare_wander_by(hares, active_hares, settings, behavior_data, &displacements);
}

/// Evaluates the threats for every hare, once the population is complete: a hare
/// whose flight has lasted its time falls back to its usual speed, whether or not
/// any threat is listed, and then runs, at raised speed, from each threat within
/// reach.
pub fn hare_flee(
    hares: &mut Vec<Hare>,
    threats: &Vec<Threat>,
    active_hares: &ActiveHares,
    settings: &HareData,
    behavior_data: &HareSteeringData,
    now: i32,
)
    ensures
        final(hares)@ == hares_fleeing(
            old(hares)@,
            threats@,
            *active_hares,
            *settings,
            behavior_data.flee,
            now,
        ),
{
    if active_hares.count < settings.max_number {
        return ;
    }
    let mut i: usize = 0;
    while i < hares.len()
        invariant
            i <= hares.len(),
            hares@.len() == old(hares)@.len(),
            forall|j: int|
                0 <= j < i ==> #[trigger] hares@[j] == old(hares)@[j].fled_all(
                    threats@,
                    *settings,
                    behavior_data.flee,
                    now,
                    threats@.len() as int,
                ),
            forall|j: int| i <= j < hares@.len() ==> #[trigger] hares@[j] == old(hares)@[j],
        decreases hares.len() - i,
    {
        let ghost start = hares@[i as int];
        let mut hare = hares[i];
        if now as i64 >= hare.behavior.flee_time as i64 + behavior_data.flee.max_flee_time as i64 {
            hare.behavior.flee_time = 0;
            hare.speed = MovementSpeed::new(settings.movement_speed);
        }
        let mut k: usize = 0;
        while k < threats.len()
            invariant
                k <= threats.len(),
                hare == start.fled_all(threats@, *settings, behavior_data.flee, now, k as int),
            decreases threats.len() - k,
        {
            let threat = threats[k];
            if !(threat.position.x == hare.position.x && threat.position.y == hare.position.y)
                && dist(hare.position, threat.position) < FLEE_RADIUS {
                hare.speed = MovementSpeed::new(
                    saturate(settings.movement_speed as i128 + FLEE_BOOST as i128),
                );
                let force = flee(
                    hare.position,
                    hare.physics.velocity,
                    threat.position,
                    hare.speed.per_step(),
                );
                hare.behavior.flee_time = now;
                hare.behavior.force = hare.behavior.force.add(
                    force.scale(behavior_data.flee.weight),
                );
            }
            k += 1;
        }
        hares[i] = hare;
        i += 1;
    }
    assert(hares@ =~= hares_fleeing(old(hares)@, threats@, *active_hares, *settings, behavior_data.flee, now));
}

/// Pushes every hare away from the walls it is about to run into, once the
/// population is complete.
pub fn hare_evade_walls(
    hares: &mut Vec<Hare>,
    active_hares: &ActiveHares,
    settings: &HareData,
    behavior_data: &HareSteeringData,
    walls: &Vec<WallData>,
)
    ensures
        final(hares)@ == hares_walled(
            old(hares)@,
            *active_hares,
            *settings,
            behavior_data.evade_walls.weight as int,
            walls@,
        ),
{
    if active_hares.count < settings.max_number {
        return ;
    }
    let mut i: usize = 0;
    while i < hares.len()
        invariant
            i <= hares.len(),
            hares@.len() == old(hares)@.len(),
            forall|j: int|
                0 <= j < i ==> #[trigger] hares@[j] == old(hares)@[j].with_force(
                    walls_force(
                        old(hares)@[j].behavior.force,
                        old(hares)@[j].position,
                        old(hares)@[j].physics.velocity,
                        old(hares)@[j].speed,
                        behavior_data.evade_walls.weight as int,
                        walls@,
                        walls@.len() as int,
                    ),
                ),
            forall|j: int| i <= j < hares@.len() ==> #[trigger] hares@[j] == old(hares)@[j],
        decreases hares.len() - i,
    {
        let hare = hares[i];
        let force = evade_walls(
            hare.behavior.force,
            hare.position,
            hare.physics.velocity,
            hare.speed,
            behavior_data.evade_walls.weight,
            walls,
        );
        hares[i] = Hare {
            position: hare.position,
            physics: hare.physics,
            speed: hare.speed,
            behavior: HareBehavior { force, flee_time: hare.behavior.flee_time },
        };
        i += 1;
    }
    assert(hares@ =~= hares_walled(old(hares)@, *active_hares, *settings, behavior_data.evade_walls.weight as int, walls@));
}

/// Removes every hare that a wolf or a bullet reaches. The first wolf that reaches
/// a hare feeds on it; a bullet that reaches a hare is spent.
pub fn hare_die(
    hares: &mut Vec<Hare>,
    wolves: &mut Vec<Wolf>,
    bullets: &mut Vec<Bullet>,
    hare_data: &HareData,
    wolf_data: &WolfData,
    bullet_data: &BulletData,
    now: i32,
)
    ensures
        final(hares)@ == hares_surviving(
            old(hares)@,
            hare_data.size(),
            old(wolves)@,
            wolf_data.size(),
            old(bullets)@,
            bullet_data.size(),
        ),
        final(wolves)@ == fed_on_all(
            old(wolves)@,
            wolf_data.size(),
            hare_positions(old(hares)@),
            hare_data.size(),
            now,
            old(hares)@.len() as int,
        ),
        final(bullets)@ == bullets_left(
            old(bullets)@,
            bullet_data.size(),
            hare_positions(old(hares)@),
            hare_data.size(),
        ),
{
    let size = Vec2 { x: hare_data.width, y: hare_data.height };
    let wolf_size = Vec2 { x: wolf_data.width, y: wolf_data.height };
    let bullet_size = Vec2 { x: bullet_data.width, y: bullet_data.height };
    let mut positions: Vec<Vec2> = Vec::new();
    let mut i: usize = 0;
    while i < hares.len()
        invariant
            i <= hares.len(),
            hares@ == old(hares)@,
            positions@.len() == i,
            forall|j: int| 0 <= j < i ==> #[trigger] positions@[j] == hares@[j].position,
        decreases hares.len() - i,
    {
        positions.push(hares[i].position);
        i += 1;
    }
    assert(positions@ =~= hare_positions(old(hares)@));
    let dead = resolve_collisions(&positions, size, wolves, wolf_size, bullets, bullet_size, now);
    let ghost keep = |h: Hare|
        !caught(
            old(wolves)@,
            wolf_data.size(),
            old(bullets)@,
            bullet_data.size(),
            h.position,
            hare_data.size(),
        );
    let mut left: Vec<Hare> = Vec::new();
    let mut i: usize = 0;
    while i < hares.len()
        invariant
            i <= hares.len(),
            hares@ == old(hares)@,
            dead@.len() == hares@.len(),
            positions@ == hare_positions(old(hares)@),
            size == hare_data.size(),
            wolf_size == wolf_data.size(),
            bullet_size == bullet_data.size(),
            forall|j: int|
                0 <= j < positions@.len() ==> #[trigger] dead@[j] == caught(
                    old(wolves)@,
                    wolf_size,
                    old(bullets)@,
                    bullet_size,
                    positions@[j],
                    size,
                ),
            keep == |h: Hare|
                !caught(
                    old(wolves)@,
                    wolf_data.size(),
                    old(bullets)@,
                    bullet_data.size(),
                    h.position,
                    hare_data.size(),
                ),
            left@ == kept(old(hares)@, keep, i as int),
        decreases hares.len() - i,
    {
        assert(positions@[i as int] == hares@[i as int].position);
        assert(keep(hares@[i as int]) == !dead@[i as int]);
        if !dead[i] {
            left.push(hares[i]);
        }
        i += 1;
    }
    *hares = left;
}

/// While the population is not complete its members stand still: the walls, the
/// threats, the wandering and the motion leave every hare as it was placed.
pub proof fn law_incomplete_population_is_inert(
    world: World,
    now: i32,
    place: Vec2,
    displacements: Seq<i32>,
)
    requires
        !world.active_hares.after_spawn(world.hare_data).full(world.hare_data),
    ensures
        HarePlugin::hares_in_motion(world, now, place, displacements) == hares_spawned(
            world.hares@,
            world.active_hares,
            world.hare_data,
            place,
        ),
{
}

/// The motion step consumes the force: none is left for the next step.
pub proof fn law_hare_force_is_consumed(hare: Hare)
    ensures
        hare.moved().behavior.force == Vec2::zero(),
        hare.moved().physics.acceleration == Vec2::zero(),
{
}

/// The hares never outnumber their count, nor the count its target: where both
/// hold before a step of the hares, both hold after it.
pub proof fn law_hares_stay_within_target(
    pre: World,
    post: World,
    now: i32,
    place: Vec2,
    displacements: Seq<i32>,
)
    requires
        HarePlugin::stepped(pre, post, now, place, displacements),
        pre.hares@.len() <= pre.active_hares.count <= pre.hare_data.max_number,
    ensures
        post.hares@.len() <= post.active_hares.count <= post.hare_data.max_number,
{
    let moved = HarePlugin::hares_in_motion(pre, now, place, displacements);
    law_kept_selects(
        moved,
        |h: Hare|
            !caught(
                pre.wolves@,
                pre.wolf_data.size(),
                pre.bullets@,
                pre.bullet_data.size(),
                h.position,
                pre.hare_data.size(),
            ),
        moved.len() as int,
    );
}

/// Hares come by the spawn step alone: a step of the hares adds at most one, and
/// none once the population is complete.
pub proof fn law_hares_come_by_spawn(
    pre: World,
    post: World,
    now: i32,
    place: Vec2,
    displacements: Seq<i32>,
)
    requires
        HarePlugin::stepped(pre, post, now, place, displacements),
    ensures
        post.hares@.len() <= pre.hares@.len() + 1,
        pre.active_hares.full(pre.hare_data) ==> post.hares@.len() <= pre.hares@.len(),
{
    let moved = HarePlugin::hares_in_motion(pre, now, place, displacements);
    law_kept_selects(
        moved,
        |h: Hare|
            !caught(
                pre.wolves@,
                pre.wolf_data.size(),
                pre.bullets@,
                pre.bullet_data.size(),
                h.position,
                pre.hare_data.size(),
            ),
        moved.len() as int,
    );
}

/// The systems of the hare, run in their fixed order.
pub struct HarePlugin;

impl HarePlugin {
    /// The hares after every system of one step but the last: the spawn step, the
    /// walls, the threats, the wandering and the motion, in this order.
    pub open spec fn hares_in_motion(
        world: World,
        now: i32,
        place: Vec2,
        displacements: Seq<i32>,
    ) -> Seq<Hare> {
        let active = world.active_hares.after_spawn(world.hare_data);
        let spawned = hares_spawned(world.hares@, world.active_hares, world.hare_data, place);
        let walled = hares_walled(
            spawned,
            active,
            world.hare_data,
            world.hare_steering.evade_walls.weight as int,
            world.walls.value@,
        );
        let fleeing = hares_fleeing(
            walled,
            threats_to_hares(walled, world.wolves@, world.player),
            active,
            world.hare_data,
            world.hare_steering.flee,
            now,
        );
        let wandering = hares_wandering(
            fleeing,
            active,
            world.hare_data,
            world.hare_steering.wander,
            displacements,
        );
        hares_moved(wandering, active, world.hare_data)
    }

    /// Whether `post` is `pre` after one step of the hares, the new hare, if any,
    /// placed at `place` and the wander phases displaced by `displacements`: the
    /// hares have gone through their systems and those that were caught are gone,
    /// the wolves that caught one have fed, the bullets that hit one are spent, and
    /// nothing else has changed.
    pub open spec fn stepped(
        pre: World,
        post: World,
        now: i32,
        place: Vec2,
        displacements: Seq<i32>,
    ) -> bool {
        let moved = Self::hares_in_motion(pre, now, place, displacements);
        &&& post.same_rules(pre)
        &&& post.active_hares == pre.active_hares.after_spawn(pre.hare_data)
        &&& post.hares@ == hares_surviving(
            moved,
            pre.hare_data.size(),
            pre.wolves@,
            pre.wolf_data.size(),
            pre.bullets@,
            pre.bullet_data.size(),
        )
        &&& post.wolves@ == fed_on_all(
            pre.wolves@,
            pre.wolf_data.size(),
            hare_positions(moved),
            pre.hare_data.size(),
            now,
            moved.len() as int,
        )
        &&& post.bullets@ == bullets_left(
            pre.bullets@,
            pre.bullet_data.size(),
            hare_positions(moved),
            pre.hare_data.size(),
        )
        &&& post.active_wolves == pre.active_wolves
        &&& post.deer@ == pre.deer@
        &&& post.deer_groups.groups@ == pre.deer_groups.groups@
        &&& post.player == pre.player
    }

    /// Whether the random systems of the hare can run on `world`: while the
    /// population is not complete the arena has room for one more, and once it is
    /// complete and there is a hare to wander, the wander phase has a range to be
    /// displaced in.
    pub open spec fn ready(world: World) -> bool {
        &&& !world.active_hares.full(world.hare_data) ==> world.field.has_room(HARE_MARGIN as int)
        &&& world.active_hares.after_spawn(world.hare_data).full(world.hare_data) && (
        world.hares@.len() > 0 || !world.active_hares.full(world.hare_data))
            ==> world.hare_steering.wander.displace_range > 0
    }

    /// Tests whether the random systems of the hare can run on `world`.
    pub fn can_update(&self, world: &World) -> (r: bool)
        ensures
            r == Self::ready(*world),
    {
        let spawning = world.active_hares.count < world.hare_data.max_number;
        let wandering = !spawning || world.active_hares.count + 1 >= world.hare_data.max_number;
        let any = spawning || world.hares.len() > 0;
        (!spawning || world.field.roomy(HARE_MARGIN)) && (!wandering || !any
            || world.hare_steering.wander.displace_range > 0)
    }

    /// Runs the systems of the hare for one step, in their fixed order: spawn, walls,
    /// threats, wander, motion, death. A new hare, if one is due, is placed at
    /// `place`, and the wander phases are displaced by `displacements`.
    pub fn update_with(&self, world: &mut World, now: i32, place: Vec2, displacements: &Vec<i32>)
        ensures
            Self::stepped(*old(world), *final(world), now, place, displacements@),
    {
        hare_spawn_at(&mut world.hares, &mut world.active_hares, &world.hare_data, place);
        hare_evade_walls(
            &mut world.hares,
            &world.active_hares,
            &world.hare_data,
            &world.hare_steering,
            &world.walls.value,
        );
        let threats = world.threats(true);
        hare_flee(
            &mut world.hares,
            &threats,
            &world.active_hares,
            &world.hare_data,
            &world.hare_steering,
            now,
        );
        hare_wander_by(
            &mut world.hares,
            &world.active_hares,
            &world.hare_data,
            &world.hare_steering,
            displacements,
        );
        hare_move(&mut world.hares, &world.active_hares, &world.hare_data);
        hare_die(
            &mut world.hares,
            &mut world.wolves,
            &mut world.bullets,
            &world.hare_data,
            &world.wolf_data,
            &world.bullet_data,
            now,
        );
    }

    /// Whether `post` is `pre` after one step of the species with some random input
    /// within its bounds.
    pub open spec fn advanced(pre: World, post: World, now: i32) -> bool {
        exists|place: Vec2, displacements: Seq<i32>|
            {
                &&& #[trigger] Self::stepped(
                    pre,
                    post,
                    now,
                    place,
                    displacements,
                )
                &&& !pre.active_hares.full(pre.hare_data) ==> pre.field.holds(HARE_MARGIN as int, place)
                &&& post.active_hares.full(pre.hare_data) ==> within_range(
                    displacements,
                    pre.hare_steering.wander.displace_range as int,
                )
            }
    }

    /// Runs the systems of the hare for one step, in their fixed order, with a
    /// random place for the new hare, if one is due, and random displacements of
    /// the wander phases.
    pub fn update(&self, world: &mut World, now: i32, rng: &mut StdRng)
        requires
            Self::ready(*old(world)),
        ensures
            Self::advanced(*old(world), *final(world), now),
    {
        let spawning = world.active_hares.count < world.hare_data.max_number;
        let place = if spawning {
            world.field.random_point(HARE_MARGIN, rng)
        } else {
            Vec2::origin()
        };
        let wandering = !spawning || world.active_hares.count + 1 >= world.hare_data.max_number;
        let count = if spawning && world.hares.len() < usize::MAX {
            world.hares.len() + 1
        } else {
            world.hares.len()
        };
        let displacements = if wandering {
            draw_displacements(count, world.hare_steering.wander.displace_range, rng)
        } else {
            Vec::new()
        };
        self.update_with(world, now, place, &displacements);
    }
}

} // verus!
