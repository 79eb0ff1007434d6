//! The predator: it wanders, keeps off the walls, hunts whatever prey is near,
//! and starves when it has not fed for too long.

use crate::components::{FieldSize, MovementSpeed, Prey, WallData};
use crate::motion::{
    displacement_at, draw_displacements, evade_walls, integrate, next_physics, next_position,
    walls_force, wander_force, wander_physics, wander_step, within_range,
};
use crate::steering::{pursue, predicted, seek_spec, EvadeWallsData, Physics, PursueData, WanderData};
use crate::utils::{is_within, within};
use crate::vector::Vec2;
use crate::world::{prey_of_wolves, World};
use rand::rngs::StdRng;
use vstd::prelude::*;

verus! {

/// The distance within which a wolf hunts: 100 world units.
pub const PURSUE_RADIUS: i32 = 100_000;

/// The width of the strip along the walls in which no wolf is placed: 30 world units.
pub const WOLF_MARGIN: i32 = 30_000;

/// The time a wolf lives without feeding: 5 seconds.
pub const MAX_HUNGER_TIME: i32 = 5_000;

/// The settings of the species.
#[derive(Clone, Copy, Debug, PartialEq, Eq, Structural)]
pub struct WolfData {
    pub movement_speed: i32,
    pub width: i32,
    pub height: i32,
    pub max_number: u32,
}

/// The tuning of the wolf's behaviours.
#[derive(Clone, Copy, Debug, PartialEq, Eq, Structural)]
pub struct WolfSteeringData {
    pub wander: WanderData,
    pub evade_walls: EvadeWallsData,
    pub pursue: PursueData,
}

/// The force gathered in this step and the hunger clock. A `hunger_time` of zero
/// means that the clock has not been started.
#[derive(Clone, Copy, Debug, PartialEq, Eq, Structural)]
pub struct WolfBehavior {
    pub force: Vec2,
    pub hunger_time: i32,
    pub max_hunger_time: i32,
}

/// How many wolves have been placed so far.
#[derive(Clone, Copy, Debug, PartialEq, Eq, Structural)]
pub struct ActiveWolves {
    pub count: u32,
}

/// One wolf.
#[derive(Clone, Copy, Debug, PartialEq, Eq, Structural)]
pub struct Wolf {
    pub position: Vec2,
    pub physics: Physics,
    pub speed: MovementSpeed,
    pub behavior: WolfBehavior,
}

impl WolfData {
    /// The size of a wolf's box.
    pub open spec fn size(self) -> Vec2 {
        Vec2 { x: self.width, y: self.height }
    }
}

impl ActiveWolves {
    /// Whether the pack is complete, so that its members may act.
    pub open spec fn full(self, settings: WolfData) -> bool {
        self.count >= settings.max_number
    }

    /// The count after the spawn step: one more while the pack is not complete.
    pub open spec fn after_spawn(self, settings: WolfData) -> ActiveWolves {
        if self.full(settings) {
            self
        } else {
            ActiveWolves { count: (self.count + 1) as u32 }
        }
    }
}

impl Wolf {
    /// A wolf as it is placed at `position`: drifting down, unfed, its force empty.
    pub open spec fn placed(position: Vec2, settings: WolfData) -> Wolf {
        Wolf {
            position,
            physics: Physics::start(),
            speed: MovementSpeed { value: settings.movement_speed },
            behavior: WolfBehavior {
                force: Vec2::zero(),
                hunger_time: 0,
                max_hunger_time: MAX_HUNGER_TIME,
            },
        }
    }

    /// The wolf after one step of motion, its force consumed.
    pub open spec fn moved(self) -> Wolf {
        Wolf {
            position: next_position(self.position, self.physics, self.behavior.force, self.speed),
            physics: next_physics(self.physics, self.behavior.force, self.speed),
            speed: self.speed,
            behavior: WolfBehavior {
                force: Vec2::zero(),
                hunger_time: self.behavior.hunger_time,
                max_hunger_time: self.behavior.max_hunger_time,
            },
        }
    }

    /// The wolf with `force` in place of the force gathered so far.
    pub open spec fn with_force(self, force: Vec2) -> Wolf {
        Wolf {
            position: self.position,
            physics: self.physics,
            speed: self.speed,
            behavior: WolfBehavior {
                force,
                hunger_time: self.behavior.hunger_time,
                max_hunger_time: self.behavior.max_hunger_time,
            },
        }
    }

    /// The wolf after wandering with the given displacement of its phase.
    pub open spec fn wandered(self, data: WanderData, displacement: int) -> Wolf {
        Wolf {
            position: self.position,
            physics: wander_physics(self.physics, displacement),
            speed: self.speed,
            behavior: WolfBehavior {
                force: wander_force(self.position, self.physics, self.behavior.force, data),
                hunger_time: self.behavior.hunger_time,
                max_hunger_time: self.behavior.max_hunger_time,
            },
        }
    }

    /// The wolf with its hunger clock set to `time`.
    pub open spec fn fed_at(self, time: i32) -> Wolf {
        Wolf {
            position: self.position,
            physics: self.physics,
            speed: self.speed,
            behavior: WolfBehavior {
                force: self.behavior.force,
                hunger_time: time,
                max_hunger_time: self.behavior.max_hunger_time,
            },
        }
    }

    /// The wolf with its hunger clock started at `now` if it was not running.
    pub open spec fn clock_started(self, now: i32) -> Wolf {
        if self.behavior.hunger_time == 0 {
            self.fed_at(now)
        } else {
            self
        }
    }

    /// Whether the wolf, its clock running, has gone unfed for too long at `now`.
    pub open spec fn starved(self, now: i32) -> bool {
        now > self.behavior.hunger_time + self.behavior.max_hunger_time
    }

    /// Whether `prey` is close enough to be hunted.
    pub open spec fn scents(self, prey: Prey) -> bool {
        within(self.position, prey.position, PURSUE_RADIUS as int)
    }

    /// The force gathered after the first `n` prey: each one in reach adds the weighted
    /// pursuit of the place where it is expected to be.
    pub open spec fn pursuit_force(self, weight: int, prey: Seq<Prey>, n: int) -> Vec2
        decreases n,
    {
        if n <= 0 {
            self.behavior.force
        } else {
            let before = self.pursuit_force(weight, prey, n - 1);
            if self.scents(prey[n - 1]) {
                before.plus(
                    seek_spec(
                        self.position,
                        self.physics.velocity,
                        predicted(
                            self.position,
                            prey[n - 1].position,
                            prey[n - 1].velocity,
                            self.speed.per_step_spec(),
                        ),
                        self.speed.per_step_spec(),
                    ).scaled(weight),
                )
            } else {
                before
            }
        }
    }
}

/// The wolves that are left of the first `n` once each clock has been started and
/// the starved have gone, in their old order.
pub open spec fn after_starving(wolves: Seq<Wolf>, now: i32, n: int) -> Seq<Wolf>
    decreases n,
{
    if n <= 0 {
        Seq::empty()
    } else {
        let rest = after_starving(wolves, now, n - 1);
        let wolf = wolves[n - 1].clock_started(now);
        if wolf.starved(now) {
            rest
        } else {
            rest.push(wolf)
        }
    }
}

/// The pack after the spawn step: one wolf more, at `position`, while the pack
/// is not complete.
pub open spec fn wolves_spawned(
    wolves: Seq<Wolf>,
    active: ActiveWolves,
    settings: WolfData,
    position: Vec2,
) -> Seq<Wolf> {
    if active.full(settings) {
        wolves
    } else {
        wolves.push(Wolf::placed(position, settings))
    }
}

/// The pack after the step of motion: every wolf moved, once the pack is complete.
pub open spec fn wolves_moved(wolves: Seq<Wolf>, active: ActiveWolves, settings: WolfData) -> Seq<
    Wolf,
> {
    if active.full(settings) {
        wolves.map_values(|w: Wolf| w.moved())
    } else {
        wolves
    }
}

/// The pack after wandering: once it is complete, the wolf at each index has
/// wandered with the displacement at the same index.
pub open spec fn wolves_wandering(
    wolves: Seq<Wolf>,
    active: ActiveWolves,
    settings: WolfData,
    data: WanderData,
    displacements: Seq<i32>,
) -> Seq<Wolf> {
    if active.full(settings) {
        Seq::new(
            wolves.len(),
            |i: int| wolves[i].wandered(data, displacement_at(displacements, i)),
        )
    } else {
        wolves
    }
}

/// The pack after the walls have pushed: once it is complete, every wolf has
/// gathered the push of each wall that it is about to run into.
pub open spec fn wolves_walled(
    wolves: Seq<Wolf>,
    active: ActiveWolves,
    settings: WolfData,
    weight: int,
    walls: Seq<WallData>,
) -> Seq<Wolf> {
    if active.full(settings) {
        wolves.map_values(
            |w: Wolf|
                w.with_force(
                    walls_force(
                        w.behavior.force,
                        w.position,
                        w.physics.velocity,
                        w.speed,
                        weight,
                        walls,
                        walls.len() as int,
                    ),
                ),
        )
    } else {
        wolves
    }
}

/// The pack on the hunt: once it is complete, every wolf has gathered the pursuit
/// of each prey within reach.
pub open spec fn wolves_pursuing(
    wolves: Seq<Wolf>,
    active: ActiveWolves,
    settings: WolfData,
    weight: int,
    prey: Seq<Prey>,
) -> Seq<Wolf> {
    if active.full(settings) {
        wolves.map_values(
            |w: Wolf| w.with_force(w.pursuit_force(weight, prey, prey.len() as int)),
        )
    } else {
        wolves
    }
}

/// The pack after starving: once it is complete, every clock runs and the
/// starved have gone.
pub open spec fn wolves_starved(
    wolves: Seq<Wolf>,
    active: ActiveWolves,
    settings: WolfData,
    now: i32,
) -> Seq<Wolf> {
    if active.full(settings) {
        after_starving(wolves, now, wolves.len() as int)
    } else {
        wolves
    }
}


/// Places one wolf at `position` while the pack is not complete, and counts it.
pub fn wolf_spawn_at(
    wolves: &mut Vec<Wolf>,
    active_wolves: &mut ActiveWolves,
    settings: &WolfData,
    position: Vec2,
)
    ensures
        final(wolves)@ == wolves_spawned(old(wolves)@, *old(active_wolves), *settings, position),
        *final(active_wolves) == old(active_wolves).after_spawn(*settings),
{
    if active_wolves.count < settings.max_number {
        wolves.push(
            Wolf {
                position,
                physics: Physics::initial(),
                speed: MovementSpeed::new(settings.movement_speed),
                behavior: WolfBehavior {
                    force: Vec2::origin(),
                    hunger_time: 0,
                    max_hunger_time: MAX_HUNGER_TIME,
                },
            },
        );
        active_wolves.count += 1;
    }
}

/// Places one wolf at a random point of the arena, away from the walls, while the
/// pack is not complete.
pub fn wolf_spawn(
    wolves: &mut Vec<Wolf>,
    active_wolves: &mut ActiveWolves,
    field: &FieldSize,
    settings: &WolfData,
    rng: &mut StdRng,
)
    requires
        !old(active_wolves).full(*settings) ==> field.has_room(WOLF_MARGIN as int),
    ensures
        *final(active_wolves) == old(active_wolves).after_spawn(*settings),
        old(active_wolves).full(*settings) ==> final(wolves)@ == old(wolves)@,
        !old(active_wolves).full(*settings) ==> exists|position: Vec2| #[trigger]
            field.holds(WOLF_MARGIN as int, position) && final(wolves)@ == wolves_spawned(
                old(wolves)@,
                *old(active_wolves),
                *settings,
                position,
            ),
{
    if active_wolves.count < settings.max_number {
        let position = field.random_point(WOLF_MARGIN, rng);
        wolf_spawn_at(wolves, active_wolves, settings, position);
    }
}

/// Moves every wolf by one step once the pack is complete: the gathered force is
/// consumed and cleared.
pub fn wolf_move(wolves: &mut Vec<Wolf>, active_wolves: &ActiveWolves, settings: &WolfData)
    ensures
        final(wolves)@ == wolves_moved(old(wolves)@, *active_wolves, *settings),
{
    if active_wolves.count < settings.max_number {
        return ;
    }
    let mut i: usize = 0;
    while i < wolves.len()
        invariant
            i <= wolves.len(),
            wolves@.len() == old(wolves)@.len(),
            forall|j: int| 0 <= j < i ==> #[trigger] wolves@[j] == old(wolves)@[j].moved(),
            forall|j: int| i <= j < wolves@.len() ==> #[trigger] wolves@[j] == old(wolves)@[j],
        decreases wolves.len() - i,
    {
        let wolf = wolves[i];
        let (position, physics) = integrate(
            wolf.position,
            wolf.physics,
            wolf.behavior.force,
            wolf.speed,
        );
        wolves[i] = Wolf {
            position,
            physics,
            speed: wolf.speed,
            behavior: WolfBehavior {
                force: Vec2::origin(),
                hunger_time: wolf.behavior.hunger_time,
                max_hunger_time: wolf.behavior.max_hunger_time,
            },
        };
        i += 1;
    }
    assert(wolves@ =~= wolves_moved(old(wolves)@, *active_wolves, *settings));
}

/// Lets every wolf wander once the pack is complete, the phase of the wolf at
/// each index moving on by the displacement at the same index.
pub fn wolf_wander_by(
    wolves: &mut Vec<Wolf>,
    active_wolves: &ActiveWolves,
    settings: &WolfData,
    behavior_data: &WolfSteeringData,
    displacements: &Vec<i32>,
)
    ensures
        final(wolves)@ == wolves_wandering(
            old(wolves)@,
            *active_wolves,
            *settings,
            behavior_data.wander,
            displacements@,
        ),
{
    if active_wolves.count < settings.max_number {
        return ;
    }
    let mut i: usize = 0;
    while i < wolves.len()
        invariant
            i <= wolves.len(),
            wolves@.len() == old(wolves)@.len(),
            forall|j: int|
                0 <= j < i ==> #[trigger] wolves@[j] == old(wolves)@[j].wandered(
                    behavior_data.wander,
                    displacement_at(displacements@, j),
                ),
            forall|j: int| i <= j < wolves@.len() ==> #[trigger] wolves@[j] == old(wolves)@[j],
        decreases wolves.len() - i,
    {
        let wolf = wolves[i];
        let displacement: i32 = if i < displacements.len() {
            displacements[i]
        } else {
            0
        };
        let (physics, force) = wander_step(
            wolf.position,
            wolf.physics,
            wolf.behavior.force,
            &behavior_data.wander,
            displacement,
        );
        wolves[i] = Wolf {
            position: wolf.position,
            physics,
            speed: wolf.speed,
            behavior: WolfBehavior {
                force,
                hunger_time: wolf.behavior.hunger_time,
                max_hunger_time: wolf.behavior.max_hunger_time,
            },
        };
        i += 1;
    }
    assert(wolves@ =~= wolves_wandering(old(wolves)@, *active_wolves, *settings, behavior_data.wander, displacements@));
}

/// Lets every wolf wander once the pack is complete, each phase moving on by a
/// random displacement within the configured range.
pub fn wolf_wander(
    wolves: &mut Vec<Wolf>,
    active_wolves: &ActiveWolves,
    settings: &WolfData,
    behavior_data: &WolfSteeringData,
    rng: &mut StdRng,
)
    requires
        active_wolves.full(*settings) && old(wolves)@.len() > 0
            ==> behavior_data.wander.displace_range > 0,
    ensures
        !active_wolves.full(*settings) ==> final(wolves)@ == old(wolves)@,
        active_wolves.full(*settings) ==> exists|displacements: Seq<i32>|
            {
                &&& displacements.len() == old(wolves)@.len()
                &&& #[trigger] within_range(displacements, behavior_data.wander.displace_range as int)
                &&& final(wolves)@ == wolves_wandering(
                    old(wolves)@,
                    *active_wolves,
                    *settings,
                    behavior_data.wander,
                    displacements,
                )
            },
{
    if active_wolves.count < settings.max_number {
        return ;
    }
    let displacements = draw_displacements(
        wolves.len(),
        behavior_data.wander.displace_range,
        rng,
    );
    wolf_wander_by(wolves, active_wolves, settings, behavior_data, &displacements);
}

/// Pushes every wolf away from the walls it is about to run into, once the pack
/// is complete.
pub fn wolf_evade_walls(
    wolves: &mut Vec<Wolf>,
    active_wolves: &ActiveWolves,
    settings: &WolfData,
    behavior_data: &WolfSteeringData,
    walls: &Vec<WallData>,
)
    ensures
        final(wolves)@ == wolves_walled(
            old(wolves)@,
            *active_wolves,
            *settings,
            behavior_data.evade_walls.weight as int,
            walls@,
        ),
{
    if active_wolves.count < settings.max_number {
        return ;
    }
    let mut i: usize = 0;
    while i < wolves.len()
        invariant
            i <= wolves.len(),
            wolves@.len() == old(wolves)@.len(),
            forall|j: int|
                0 <= j < i ==> #[trigger] wolves@[j] == old(wolves)@[j].with_force(
                    walls_force(
                        old(wolves)@[j].behavior.force,
                        old(wolves)@[j].position,
                        old(wolves)@[j].physics.velocity,
                        old(wolves)@[j].speed,
                        behavior_data.evade_walls.weight as int,
                        walls@,
                        walls@.len() as int,
                    ),
                ),
            forall|j: int| i <= j < wolves@.len() ==> #[trigger] wolves@[j] == old(wolves)@[j],
        decreases wolves.len() - i,
    {
        let wolf = wolves[i];
        let force = evade_walls(
            wolf.behavior.force,
            wolf.position,
            wolf.physics.velocity,
            wolf.speed,
            behavior_data.evade_walls.weight,
            walls,
        );
        wolves[i] = Wolf {
            position: wolf.position,
            physics: wolf.physics,
            speed: wolf.speed,
            behavior: WolfBehavior {
                force,
                hunger_time: wolf.behavior.hunger_time,
                max_hunger_time: wolf.behavior.max_hunger_time,
            },
        };
        i += 1;
    }
    assert(wolves@ =~= wolves_walled(old(wolves)@, *active_wolves, *settings, behavior_data.evade_walls.weight as int, walls@));
}

/// Draws every wolf toward each prey within reach, once the pack is complete.
/// Each prey adds its own force; a prey out of reach adds none.
pub fn wolf_pursue(
    wolves: &mut Vec<Wolf>,
    prey: &Vec<Prey>,
    active_wolves: &ActiveWolves,
    settings: &WolfData,
    behavior_data: &WolfSteeringData,
)
    ensures
        final(wolves)@ == wolves_pursuing(
            old(wolves)@,
            *active_wolves,
            *settings,
            behavior_data.pursue.weight as int,
            prey@,
        ),
{
    if active_wolves.count < settings.max_number {
        return ;
    }
    let mut i: usize = 0;
    while i < wolves.len()
        invariant
            i <= wolves.len(),
            wolves@.len() == old(wolves)@.len(),
            forall|j: int|
                0 <= j < i ==> #[trigger] wolves@[j] == old(wolves)@[j].with_force(
                    old(wolves)@[j].pursuit_force(
                        behavior_data.pursue.weight as int,
                        prey@,
                        prey@.len() as int,
                    ),
                ),
            forall|j: int| i <= j < wolves@.len() ==> #[trigger] wolves@[j] == old(wolves)@[j],
        decreases wolves.len() - i,
    {
        let wolf = wolves[i];
        let mut force = wolf.behavior.force;
        let mut k: usize = 0;
        while k < prey.len()
            invariant
                k <= prey.len(),
                force == wolf.pursuit_force(behavior_data.pursue.weight as int, prey@, k as int),
            decreases prey.len() - k,
        {
            let target = prey[k];
            if is_within(wolf.position, target.position, PURSUE_RADIUS) {
                let steer = pursue(
                    wolf.position,
                    wolf.physics.velocity,
                    target.position,
                    target.velocity,
                    wolf.speed.per_step(),
                );
                force = force.add(steer.scale(behavior_data.pursue.weight));
            }
            k += 1;
        }
        wolves[i] = Wolf {
            position: wolf.position,
            physics: wolf.physics,
            speed: wolf.speed,
            behavior: WolfBehavior {
                force,
                hunger_time: wolf.behavior.hunger_time,
                max_hunger_time: wolf.behavior.max_hunger_time,
            },
        };
        i += 1;
    }
    assert(wolves@ =~= wolves_pursuing(old(wolves)@, *active_wolves, *settings, behavior_data.pursue.weight as int, prey@));
}

/// Starts the hunger clock of every wolf that has none running and removes the
/// wolves that have gone unfed for longer than they can bear, once the pack is
/// complete. The others keep their order.
pub fn wolf_starve(
    wolves: &mut Vec<Wolf>,
    now: i32,
    active_wolves: &ActiveWolves,
    settings: &WolfData,
)
    ensures
        final(wolves)@ == wolves_starved(old(wolves)@, *active_wolves, *settings, now),
{
    if active_wolves.count < settings.max_number {
        return ;
    }
    let mut kept: Vec<Wolf> = Vec::new();
    let mut i: usize = 0;
    while i < wolves.len()
        invariant
            i <= wolves.len(),
            wolves@ == old(wolves)@,
            kept@ == after_starving(old(wolves)@, now, i as int),
        decreases wolves.len() - i,
    {
        let mut wolf = wolves[i];
        if wolf.behavior.hunger_time == 0 {
            wolf.behavior.hunger_time = now;
        }
        if now as i64 > wolf.behavior.hunger_time as i64 + wolf.behavior.max_hunger_time as i64 {
        } else {
            kept.push(wolf);
        }
        i += 1;
    }
    *wolves = kept;
}

/// A wolf whose clock runs lives on exactly as long as it has not gone unfed for
/// longer than it can bear.
pub proof fn law_hunger(wolf: Wolf, now: i32)
    requires
        wolf.behavior.hunger_time != 0,
    ensures
        now <= wolf.behavior.hunger_time + wolf.behavior.max_hunger_time ==> after_starving(
            seq![wolf],
            now,
            1,
        ) == seq![wolf],
        now > wolf.behavior.hunger_time + wolf.behavior.max_hunger_time ==> after_starving(
            seq![wolf],
            now,
            1,
        ) == Seq::<Wolf>::empty(),
{
    assert(after_starving(seq![wolf], now, 0) == Seq::<Wolf>::empty());
    assert(seq![wolf][0] == wolf);
    assert(Seq::<Wolf>::empty().push(wolf) =~= seq![wolf]);
}

/// A wolf whose clock has not been started does not starve at once: the clock
/// starts at the time it is first looked at.
pub proof fn law_new_wolf_lives(wolf: Wolf, now: i32)
    requires
        wolf.behavior.hunger_time == 0,
        wolf.behavior.max_hunger_time >= 0,
    ensures
        after_starving(seq![wolf], now, 1) == seq![wolf.fed_at(now)],
{
    assert(after_starving(seq![wolf], now, 0) == Seq::<Wolf>::empty());
    assert(seq![wolf][0] == wolf);
    assert(Seq::<Wolf>::empty().push(wolf.fed_at(now)) =~= seq![wolf.fed_at(now)]);
}

/// Feeding winds the clock back: a wolf that has fed at `time` starves at `now`
/// exactly if `now` is later than `time` by more than it can bear.
pub proof fn law_feeding_resets_hunger(wolf: Wolf, time: i32, now: i32)
    ensures
        wolf.fed_at(time).starved(now) <==> now > time + wolf.behavior.max_hunger_time,
{
}

/// While the pack is not complete its members stand still: the wandering, the
/// walls, the hunt and the motion leave every wolf as it was placed.
pub proof fn law_incomplete_pack_is_inert(world: World, place: Vec2, displacements: Seq<i32>)
    requires
        !world.active_wolves.after_spawn(world.wolf_data).full(world.wolf_data),
    ensures
        WolfPlugin::wolves_in_motion(world, place, displacements) == wolves_spawned(
            world.wolves@,
            world.active_wolves,
            world.wolf_data,
            place,
        ),
{
}

/// The motion step consumes the force: none is left for the next step.
pub proof fn law_wolf_force_is_consumed(wolf: Wolf)
    ensures
        wolf.moved().behavior.force == Vec2::zero(),
        wolf.moved().physics.acceleration == Vec2::zero(),
{
}

/// Those left after starving are wolves of the pack, their clocks started, that
/// have not starved; and they are no more than before.
pub proof fn law_survivors_are_fed(wolves: Seq<Wolf>, now: i32, n: int)
    requires
        0 <= n <= wolves.len(),
    ensures
        after_starving(wolves, now, n).len() <= n,
        forall|k: int|
            0 <= k < after_starving(wolves, now, n).len() ==> !(#[trigger] after_starving(
                wolves,
                now,
                n,
            )[k]).starved(now) && exists|i: int|
                0 <= i < n && after_starving(wolves, now, n)[k] == (#[trigger] wolves[i]).clock_started(
                    now,
                ),
    decreases n,
{
    if n > 0 {
        law_survivors_are_fed(wolves, now, n - 1);
        let before = after_starving(wolves, now, n - 1);
        let left = after_starving(wolves, now, n);
        assert forall|k: int| 0 <= k < left.len() implies !(#[trigger] left[k]).starved(now)
            && exists|i: int| 0 <= i < n && left[k] == (#[trigger] wolves[i]).clock_started(now) by {
            if k < before.len() {
                assert(left[k] == before[k]);
                let i = choose|i: int|
                    0 <= i < n - 1 && before[k] == (#[trigger] wolves[i]).clock_started(now);
                assert(left[k] == wolves[i].clock_started(now));
            } else {
                assert(left[k] == wolves[n - 1].clock_started(now));
            }
        }
    }
}

/// The pack never outgrows its count, nor the count its target: where both hold
/// before a step of the wolves, both hold after it.
pub proof fn law_pack_stays_within_target(
    pre: World,
    post: World,
    now: i32,
    place: Vec2,
    displacements: Seq<i32>,
)
    requires
        WolfPlugin::stepped(pre, post, now, place, displacements),
        pre.wolves@.len() <= pre.active_wolves.count <= pre.wolf_data.max_number,
    ensures
        post.wolves@.len() <= post.active_wolves.count <= post.wolf_data.max_number,
{
    let moved = WolfPlugin::wolves_in_motion(pre, place, displacements);
    law_survivors_are_fed(moved, now, moved.len() as int);
}

/// Wolves come by the spawn step alone: a step of the wolves adds at most one, and
/// none once the pack is complete.
pub proof fn law_wolves_come_by_spawn(
    pre: World,
    post: World,
    now: i32,
    place: Vec2,
    displacements: Seq<i32>,
)
    requires
        WolfPlugin::stepped(pre, post, now, place, displacements),
    ensures
        post.wolves@.len() <= pre.wolves@.len() + 1,
        pre.active_wolves.full(pre.wolf_data) ==> post.wolves@.len() <= pre.wolves@.len(),
{
    let moved = WolfPlugin::wolves_in_motion(pre, place, displacements);
    law_survivors_are_fed(moved, now, moved.len() as int);
}

/// The systems of the wolf, run in their fixed order.
pub struct WolfPlugin;

impl WolfPlugin {
    /// The wolves after every system of one step but the last: the spawn step, the
    /// wandering, the walls, the hunt and the motion, in this order.
    pub open spec fn wolves_in_motion(
        world: World,
        place: Vec2,
        displacements: Seq<i32>,
    ) -> Seq<Wolf> {
        let active = world.active_wolves.after_spawn(world.wolf_data);
        let spawned = wolves_spawned(world.wolves@, world.active_wolves, world.wolf_data, place);
        let wandering = wolves_wandering(
            spawned,
            active,
            world.wolf_data,
            world.wolf_steering.wander,
            displacements,
        );
        let walled = wolves_walled(
            wandering,
            active,
            world.wolf_data,
            world.wolf_steering.evade_walls.weight as int,
            world.walls.value@,
        );
        let pursuing = wolves_pursuing(
            walled,
            active,
            world.wolf_data,
            world.wolf_steering.pursue.weight as int,
            prey_of_wolves(world.hares@, world.deer@, world.player),
        );
        wolves_moved(pursuing, active, world.wolf_data)
    }

    /// Whether `post` is `pre` after one step of the wolves, the new wolf, if any,
    /// placed at `place` and the wander phases displaced by `displacements`: the
    /// wolves have gone through their systems and the starved are gone, and nothing
    /// else has changed.
    pub open spec fn stepped(
        pre: World,
        post: World,
        now: i32,
        place: Vec2,
        displacements: Seq<i32>,
    ) -> bool {
        &&& post.same_rules(pre)
        &&& post.active_wolves == pre.active_wolves.after_spawn(pre.wolf_data)
        &&& post.wolves@ == wolves_starved(
            Self::wolves_in_motion(pre, place, displacements),
            post.active_wolves,
            pre.wolf_data,
            now,
        )
        &&& post.active_hares == pre.active_hares
        &&& post.hares@ == pre.hares@
        &&& post.deer@ == pre.deer@
        &&& post.deer_groups.groups@ == pre.deer_groups.groups@
        &&& post.player == pre.player
        &&& post.bullets@ == pre.bullets@
    }

    /// Whether the random systems of the wolf can run on `world`: while the pack is
    /// not complete the arena has room for one more, and once it is complete and
    /// there is a wolf to wander, the wander phase has a range to be displaced in.
    pub open spec fn ready(world: World) -> bool {
        &&& !world.active_wolves.full(world.wolf_data) ==> world.field.has_room(
            WOLF_MARGIN as int,
        )
        &&& world.active_wolves.after_spawn(world.wolf_data).full(world.wolf_data) && (
        world.wolves@.len() > 0 || !world.active_wolves.full(world.wolf_data))
            ==> world.wolf_steering.wander.displace_range > 0
    }

    /// Tests whether the random systems of the wolf can run on `world`.
    pub fn can_update(&self, world: &World) -> (r: bool)
        ensures
            r == Self::ready(*world),
    {
        let spawning = world.active_wolves.count < world.wolf_data.max_number;
        let wandering = !spawning || world.active_wolves.count + 1 >= world.wolf_data.max_number;
        let any = spawning || world.wolves.len() > 0;
        (!spawning || world.field.roomy(WOLF_MARGIN)) && (!wandering || !any
            || world.wolf_steering.wander.displace_range > 0)
    }

    /// Runs the systems of the wolf for one step, in their fixed order: spawn,
    /// wander, walls, hunt, motion, starvation. A new wolf, if one is due, is placed
    /// at `place`, and the wander phases are displaced by `displacements`.
    pub fn update_with(&self, world: &mut World, now: i32, place: Vec2, displacements: &Vec<i32>)
        ensures
            Self::stepped(*old(world), *final(world), now, place, displacements@),
    {
        wolf_spawn_at(&mut world.wolves, &mut world.active_wolves, &world.wolf_data, place);
        wolf_wander_by(
            &mut world.wolves,
            &world.active_wolves,
            &world.wolf_data,
            &world.wolf_steering,
            displacements,
        );
        wolf_evade_walls(
            &mut world.wolves,
            &world.active_wolves,
            &world.wolf_data,
            &world.wolf_steering,
            &world.walls.value,
        );
        let prey = world.prey();
        wolf_pursue(
            &mut world.wolves,
            &prey,
            &world.active_wolves,
            &world.wolf_data,
            &world.wolf_steering,
        );
        wolf_move(&mut world.wolves, &world.active_wolves, &world.wolf_data);
        wolf_starve(&mut world.wolves, now, &world.active_wolves, &world.wolf_data);
    }

    /// Whether `post` is `pre` after one step of the species with some random input
    /// within its bounds.
    pub open spec fn advanced(pre: World, post: World, now: i32) -> bool {
        exists|place: Vec2, displacements: Seq<i32>|
            {
                &&& #[trigger] Self::stepped(
                    pre,
                    post,
                    now,
                    place,
                    displacements,
                )
                &&& !pre.active_wolves.full(pre.wolf_data) ==> pre.field.holds(WOLF_MARGIN as int, place)
                &&& post.active_wolves.full(pre.wolf_data) ==> within_range(
                    displacements,
                    pre.wolf_steering.wander.displace_range as int,
                )
            }
    }

    /// Runs the systems of the wolf for one step, in their fixed order, with a
    /// random place for the new wolf, if one is due, and random displacements of
    /// the wander phases.
    pub fn update(&self, world: &mut World, now: i32, rng: &mut StdRng)
        requires
            Self::ready(*old(world)),
        ensures
            Self::advanced(*old(world), *final(world), now),
    {
        let spawning = world.active_wolves.count < world.wolf_data.max_number;
        let place = if spawning {
            world.field.random_point(WOLF_MARGIN, rng)
        } else {
            Vec2::origin()
        };
        let wandering = !spawning || world.active_wolves.count + 1 >= world.wolf_data.max_number;
        let count = if spawning && world.wolves.len() < usize::MAX {
            world.wolves.len() + 1
        } else {
            world.wolves.len()
        };
        let displacements = if wandering {
            draw_displacements(count, world.wolf_steering.wander.displace_range, rng)
        } else {
            Vec::new()
        };
        self.update_with(world, now, place, &displacements);
    }
}

} // verus!
