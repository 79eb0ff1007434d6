//! The deer: it lives in herds that keep together, wanders, keeps off the walls,
//! runs from threats and evades wolves.

use crate::components::{FieldSize, MovementSpeed, Threat, WallData};
use crate::fixed::{abs, div, div_trunc, product, saturate};
use crate::motion::{
    displacement_at, draw_displacements, evade_walls, integrate, next_physics, next_position,
    walls_force, wander_force, wander_physics, wander_step, within_range,
};
use crate::player::{Bullet, BulletData};
use crate::predation::{
    bullets_left, caught, fed_on_all, kept, law_kept_selects, resolve_collisions,
};
use crate::random::{draw_between, draw_id};
use crate::steering::{
    evade, flee, flee_spec, predicted, EvadeData, EvadeWallsData, FleeData, FlockingData, Physics,
    WanderData,
};
use crate::utils::{
    dist, dist_spec, dist_sq, is_within, limit, limit_spec, set_mag, set_mag_spec, within,
};
use crate::vector::Vec2;
use crate::wolf::{Wolf, WolfData};
use crate::world::{threats_to_deer, World};
use rand::rngs::StdRng;
use vstd::prelude::*;

verus! {

/// The distance within which a deer runs from a threat: 100 world units.
pub const DEER_FLEE_RADIUS: i32 = 100_000;

/// The distance within which a deer evades a wolf: 180 world units.
pub const EVADE_RADIUS: i32 = 180_000;

/// The width of the strip along the walls in which no herd is centred: 60 world units.
pub const DEER_MARGIN: i32 = 60_000;

/// How far from the centre of its herd, along each axis, a deer may be placed:
/// 30 world units.
pub const HERD_SPREAD: i32 = 30_000;

/// The least size of a herd.
pub const MIN_HERD: u32 = 3;

/// The factor by which the terms of the separation rule are refined: they are kept
/// in millionths of a world unit, so that distant neighbours still count.
pub const FINE: i64 = 1_000_000_000;

/// The settings of the species.
#[derive(Clone, Copy, Debug, PartialEq, Eq, Structural)]
pub struct DeerData {
    pub movement_speed: i32,
    pub width: i32,
    pub height: i32,
    pub max_number: u32,
    pub group_number: u32,
}

/// The tuning of the deer's behaviours.
#[derive(Clone, Copy, Debug, PartialEq, Eq, Structural)]
pub struct DeerSteeringData {
    pub wander: WanderData,
    pub evade_walls: EvadeWallsData,
    pub flee: FleeData,
    pub evade: EvadeData,
    pub separation: FlockingData,
    pub alignment: FlockingData,
    pub cohesion: FlockingData,
}

/// The force gathered in this step.
#[derive(Clone, Copy, Debug, PartialEq, Eq, Structural)]
pub struct Behavior {
    pub force: Vec2,
}

/// The herd that a deer belongs to.
#[derive(Clone, Copy, Debug, PartialEq, Eq, Structural)]
pub struct GroupID {
    pub value: u32,
}

/// One herd: its identifier and the number of deer it was made with.
#[derive(Clone, Copy, Debug, PartialEq, Eq, Structural)]
pub struct DeerGroup {
    pub id: u32,
    pub count: u32,
}

/// The herds made so far.
pub struct DeerGroups {
    pub groups: Vec<DeerGroup>,
}

/// One deer.
#[derive(Clone, Copy, Debug, PartialEq, Eq, Structural)]
pub struct Deer {
    pub position: Vec2,
    pub physics: Physics,
    pub speed: MovementSpeed,
    pub behavior: Behavior,
    pub group: GroupID,
}

/// One of the three rules that keep a herd together.
#[derive(Clone, Copy, Debug, PartialEq, Eq, Structural)]
pub enum FlockRule {
    /// Keep away from the neighbours.
    Separation,
    /// Head where the neighbours head.
    Alignment,
    /// Move toward the middle of the neighbours.
    Cohesion,
}

impl DeerData {
    /// The size of a deer's box.
    pub open spec fn size(self) -> Vec2 {
        Vec2 { x: self.width, y: self.height }
    }
}

impl DeerGroups {
    /// Whether all herds have been made, so that the deer may act.
    pub open spec fn full(self, settings: DeerData) -> bool {
        self.groups@.len() >= settings.group_number
    }

    /// Whether a herd with the identifier `id` has been made.
    pub open spec fn lists(self, id: u32) -> bool {
        exists|g: int| 0 <= g < self.groups@.len() && (#[trigger] self.groups@[g]).id == id
    }

    /// Tests whether all herds have been made.
    pub fn is_full(&self, settings: &DeerData) -> (r: bool)
        ensures
            r == self.full(*settings),
    {
        self.groups.len() >= settings.group_number as usize
    }

    /// Tests whether a herd with the identifier `id` has been made.
    pub fn has(&self, id: u32) -> (r: bool)
        ensures
            r == self.lists(id),
    {
        let mut g: usize = 0;
        while g < self.groups.len()
            invariant
                g <= self.groups.len(),
                forall|k: int| 0 <= k < g ==> (#[trigger] self.groups@[k]).id != id,
            decreases self.groups.len() - g,
        {
            if self.groups[g].id == id {
                return true;
            }
            g += 1;
        }
        false
    }
}

impl FlockRule {
    /// The tuning of this rule.
    pub open spec fn data(self, all: DeerSteeringData) -> FlockingData {
        match self {
            FlockRule::Separation => all.separation,
            FlockRule::Alignment => all.alignment,
            FlockRule::Cohesion => all.cohesion,
        }
    }

    /// What the neighbour `other` adds to the sum that `me` forms under this rule:
    /// under separation the offset from the neighbour divided by the squared
    /// distance, refined by `FINE`; under alignment the neighbour's velocity; under
    /// cohesion the neighbour's position.
    pub open spec fn term(self, me: Deer, other: Deer) -> (int, int) {
        match self {
            FlockRule::Separation => (
                div_trunc(
                    (me.position.x - other.position.x) * FINE,
                    dist_sq(me.position, other.position),
                ),
                div_trunc(
                    (me.position.y - other.position.y) * FINE,
                    dist_sq(me.position, other.position),
                ),
            ),
            FlockRule::Alignment => (
                other.physics.velocity.x as int,
                other.physics.velocity.y as int,
            ),
            FlockRule::Cohesion => (other.position.x as int, other.position.y as int),
        }
    }

    /// The direction that `me` wishes to take under this rule, given the average
    /// of the terms: the average itself, or under cohesion the way from `me` to it.
    pub open spec fn desired(self, me: Deer, average: Vec2) -> Vec2 {
        match self {
            FlockRule::Cohesion => average.minus(me.position),
            _ => average,
        }
    }
}

impl Deer {
    /// A deer as it is placed at `position` in the herd `id`.
    pub open spec fn placed(position: Vec2, settings: DeerData, id: u32) -> Deer {
        Deer {
            position,
            physics: Physics::start(),
            speed: MovementSpeed { value: settings.movement_speed },
            behavior: Behavior { force: Vec2::zero() },
            group: GroupID { value: id },
        }
    }

    /// The deer after one step of motion, its force consumed.
    pub open spec fn moved(self) -> Deer {
        Deer {
            position: next_position(self.position, self.physics, self.behavior.force, self.speed),
            physics: next_physics(self.physics, self.behavior.force, self.speed),
            speed: self.speed,
            behavior: Behavior { force: Vec2::zero() },
            group: self.group,
        }
    }

    /// The deer with `force` in place of the force gathered so far.
    pub open spec fn with_force(self, force: Vec2) -> Deer {
        Deer {
            position: self.position,
            physics: self.physics,
            speed: self.speed,
            behavior: Behavior { force },
            group: self.group,
        }
    }

    /// The deer after wandering with the given displacement of its phase.
    pub open spec fn wandered(self, data: WanderData, displacement: int) -> Deer {
        Deer {
            position: self.position,
            physics: wander_physics(self.physics, displacement),
            speed: self.speed,
            behavior: Behavior {
                force: wander_force(self.position, self.physics, self.behavior.force, data),
            },
            group: self.group,
        }
    }

    /// Whether `other` is a neighbour: another deer of the same herd, closer than
    /// `radius`. A deer at the same place is the deer itself.
    pub open spec fn flocks_with(self, other: Deer, radius: int) -> bool {
        &&& other.group == self.group
        &&& other.position != self.position
        &&& dist_spec(self.position, other.position) < radius
    }

    /// The number of neighbours among the first `n` deer.
    pub open spec fn flock_size(self, herd: Seq<Deer>, radius: int, n: int) -> int
        decreases n,
    {
        if n <= 0 {
            0
        } else if self.flocks_with(herd[n - 1], radius) {
            self.flock_size(herd, radius, n - 1) + 1
        } else {
            self.flock_size(herd, radius, n - 1)
        }
    }

    /// The sum over the neighbours among the first `n` deer of the first
    /// components of their terms under `rule`.
    pub open spec fn flock_sum_x(self, rule: FlockRule, herd: Seq<Deer>, radius: int, n: int) -> int
        decreases n,
    {
        if n <= 0 {
            0
        } else if self.flocks_with(herd[n - 1], radius) {
            self.flock_sum_x(rule, herd, radius, n - 1) + rule.term(self, herd[n - 1]).0
        } else {
            self.flock_sum_x(rule, herd, radius, n - 1)
        }
    }

    /// The sum over the neighbours among the first `n` deer of the second
    /// components of their terms under `rule`.
    pub open spec fn flock_sum_y(self, rule: FlockRule, herd: Seq<Deer>, radius: int, n: int) -> int
        decreases n,
    {
        if n <= 0 {
            0
        } else if self.flocks_with(herd[n - 1], radius) {
            self.flock_sum_y(rule, herd, radius, n - 1) + rule.term(self, herd[n - 1]).1
        } else {
            self.flock_sum_y(rule, herd, radius, n - 1)
        }
    }

    /// The force gathered after `rule` has been applied within `herd`: with no
    /// neighbour the force stays as it is; else the average of the neighbours' terms
    /// gives the desired direction, taken at the deer's speed, and the difference
    /// from the velocity, capped at the rule's greatest force, is added.
    pub open spec fn flocked(self, rule: FlockRule, herd: Seq<Deer>, data: FlockingData) -> Vec2 {
        let radius = data.perception_radius as int;
        let total = self.flock_size(herd, radius, herd.len() as int);
        if total > 0 {
            let average = Vec2::of(
                div_trunc(self.flock_sum_x(rule, herd, radius, herd.len() as int), total),
                div_trunc(self.flock_sum_y(rule, herd, radius, herd.len() as int), total),
            );
            self.behavior.force.plus(
                limit_spec(
                    set_mag_spec(rule.desired(self, average), self.speed.value as int).minus(
                        self.physics.velocity,
                    ),
                    data.max_force as int,
                ),
            )
        } else {
            self.behavior.force
        }
    }

    /// Whether `threat` is another agent close enough to run from.
    pub open spec fn scared_by(self, threat: Threat) -> bool {
        threat.position != self.position && dist_spec(self.position, threat.position)
            < DEER_FLEE_RADIUS
    }

    /// The force gathered after the first `n` threats: each one within reach adds
    /// the weighted force away from it.
    pub open spec fn flight_force(self, weight: int, threats: Seq<Threat>, n: int) -> Vec2
        decreases n,
    {
        if n <= 0 {
            self.behavior.force
        } else {
            let before = self.flight_force(weight, threats, n - 1);
            if self.scared_by(threats[n - 1]) {
                before.plus(
                    flee_spec(
                        self.position,
                        self.physics.velocity,
                        threats[n - 1].position,
                        self.speed.per_step_spec(),
                    ).scaled(weight),
                )
            } else {
                before
            }
        }
    }

    /// Whether `wolf` is close enough to be evaded.
    pub open spec fn wary_of(self, wolf: Wolf) -> bool {
        within(self.position, wolf.position, EVADE_RADIUS as int)
    }

    /// The force gathered after the first `n` wolves: each one within reach adds
    /// the weighted force away from the place where it is expected to be.
    pub open spec fn evasion_force(self, weight: int, wolves: Seq<Wolf>, n: int) -> Vec2
        decreases n,
    {
        if n <= 0 {
            self.behavior.force
        } else {
            let before = self.evasion_force(weight, wolves, n - 1);
            if self.wary_of(wolves[n - 1]) {
                before.plus(
                    flee_spec(
                        self.position,
                        self.physics.velocity,
                        predicted(
                            self.position,
                            wolves[n - 1].position,
                            wolves[n - 1].physics.velocity,
                            self.speed.per_step_spec(),
                        ),
                        self.speed.per_step_spec(),
                    ).scaled(weight),
                )
            } else {
                before
            }
        }
    }
}

/// The places of the deer.
pub open spec fn deer_positions(deer: Seq<Deer>) -> Seq<Vec2> {
    Seq::new(deer.len(), |i: int| deer[i].position)
}

/// What the neighbour `other` adds to the sums of `me` under `rule`.
fn rule_term(rule: FlockRule, me: &Deer, other: &Deer) -> (r: (i128, i128))
    requires
        me.position != other.position,
    ensures
        r.0 == rule.term(*me, *other).0,
        r.1 == rule.term(*me, *other).1,
        -0x4000_0000_0000_0000 <= r.0 <= 0x4000_0000_0000_0000,
        -0x4000_0000_0000_0000 <= r.1 <= 0x4000_0000_0000_0000,
{
    match rule {
        FlockRule::Separation => {
            let bx: i64 = other.position.x as i64 - me.position.x as i64;
            let by: i64 = other.position.y as i64 - me.position.y as i64;
            assert(0 <= bx * bx <= 0x1_0000_0000_0000_0000 && (bx != 0 ==> bx * bx > 0))
                by (nonlinear_arith)
                requires
                    -0x1_0000_0000 <= bx <= 0x1_0000_0000,
            ;
            assert(0 <= by * by <= 0x1_0000_0000_0000_0000 && (by != 0 ==> by * by > 0))
                by (nonlinear_arith)
                requires
                    -0x1_0000_0000 <= by <= 0x1_0000_0000,
            ;
            let dsq: i128 = product(bx, bx) + product(by, by);
            let ax: i64 = me.position.x as i64 - other.position.x as i64;
            let ay: i64 = me.position.y as i64 - other.position.y as i64;
            assert(-0x4000_0000_0000_0000 <= ax * FINE <= 0x4000_0000_0000_0000)
                by (nonlinear_arith)
                requires
                    -0x1_0000_0000 <= ax <= 0x1_0000_0000,
                    FINE == 1_000_000_000,
            ;
            assert(-0x4000_0000_0000_0000 <= ay * FINE <= 0x4000_0000_0000_0000)
                by (nonlinear_arith)
                requires
                    -0x1_0000_0000 <= ay <= 0x1_0000_0000,
                    FINE == 1_000_000_000,
            ;
            (div(product(ax, FINE), dsq), div(product(ay, FINE), dsq))
        },
        FlockRule::Alignment => (
            other.physics.velocity.x as i128,
            other.physics.velocity.y as i128,
        ),
        FlockRule::Cohesion => (other.position.x as i128, other.position.y as i128),
    }
}

/// Applies one flocking rule to `me` within `herd` and returns the force gathered.
pub fn flock_step(me: &Deer, herd: &Vec<Deer>, rule: FlockRule, data: &FlockingData) -> (force:
    Vec2)
    ensures
        force == me.flocked(rule, herd@, *data),
{
    let radius: i32 = data.perception_radius;
    let mut total: usize = 0;
    let mut sum_x: i128 = 0;
    let mut sum_y: i128 = 0;
    let mut j: usize = 0;
    while j < herd.len()
        invariant
            j <= herd.len(),
            radius == data.perception_radius,
            total <= j,
            total == me.flock_size(herd@, radius as int, j as int),
            sum_x == me.flock_sum_x(rule, herd@, radius as int, j as int),
            sum_y == me.flock_sum_y(rule, herd@, radius as int, j as int),
            -0x4000_0000_0000_0000 * j <= sum_x <= 0x4000_0000_0000_0000 * j,
            -0x4000_0000_0000_0000 * j <= sum_y <= 0x4000_0000_0000_0000 * j,
        decreases herd.len() - j,
    {
        let other = herd[j];
        if other.group.value == me.group.value && !(other.position.x == me.position.x
            && other.position.y == me.position.y) && dist(me.position, other.position) < radius {
            let (term_x, term_y) = rule_term(rule, me, &other);
            sum_x = sum_x + term_x;
            sum_y = sum_y + term_y;
            total = total + 1;
        }
        j += 1;
    }
    if total > 0 {
        let average = Vec2 {
            x: saturate(div(sum_x, total as i128)),
            y: saturate(div(sum_y, total as i128)),
        };
        let desired = match rule {
            FlockRule::Cohesion => average.sub(me.position),
            _ => average,
        };
        let steer = limit(set_mag(desired, me.speed.value).sub(me.physics.velocity), data.max_force);
        me.behavior.force.add(steer)
    } else {
        me.behavior.force
    }
}

/// Applies one flocking rule to every deer within the herd it belongs to, once
/// all herds have been made.
fn deer_flock(
    deer: &mut Vec<Deer>,
    rule: FlockRule,
    data: &FlockingData,
    settings: &DeerData,
    deer_groups: &DeerGroups,
)
    ensures
        final(deer)@ == deer_flocking(old(deer)@, rule, *data, *settings, *deer_groups),
{
    if !deer_groups.is_full(settings) {
        return ;
    }
    let mut herd: Vec<Deer> = Vec::new();
    let mut i: usize = 0;
    while i < deer.len()
        invariant
            i <= deer.len(),
            deer@ == old(deer)@,
            herd@ == deer@.take(i as int),
        decreases deer.len() - i,
    {
        herd.push(deer[i]);
        assert(deer@.take(i + 1) =~= deer@.take(i as int).push(deer@[i as int]));
        i += 1;
    }
    assert(herd@ =~= old(deer)@);
    let mut i: usize = 0;
    while i < deer.len()
        invariant
            i <= deer.len(),
            deer@.len() == old(deer)@.len(),
            herd@ == old(deer)@,
            forall|j: int|
                0 <= j < i ==> #[trigger] deer@[j] == old(deer)@[j].with_force(
                    old(deer)@[j].flocked(rule, old(deer)@, *data),
                ),
            forall|j: int| i <= j < deer@.len() ==> #[trigger] deer@[j] == old(deer)@[j],
        decreases deer.len() - i,
    {
        let me = deer[i];
        let force = flock_step(&me, &herd, rule, data);
        deer[i] = Deer {
            position: me.position,
            physics: me.physics,
            speed: me.speed,
            behavior: Behavior { force },
            group: me.group,
        };
        i += 1;
    }
    assert(deer@ =~= deer_flocking(old(deer)@, rule, *data, *settings, *deer_groups));
}

/// Turns every deer toward the heading of its neighbours.
pub fn deer_alignment(
    deer: &mut Vec<Deer>,
    behavior_data: &DeerSteeringData,
    settings: &DeerData,
    deer_groups: &DeerGroups,
)
    ensures
        final(deer)@ == deer_flocking(
            old(deer)@,
            FlockRule::Alignment,
            behavior_data.alignment,
            *settings,
            *deer_groups,
        ),
{
    deer_flock(deer, FlockRule::Alignment, &behavior_data.alignment, settings, deer_groups);
}

/// Draws every deer toward the middle of its neighbours.
pub fn deer_cohesion(
    deer: &mut Vec<Deer>,
    behavior_data: &DeerSteeringData,
    settings: &DeerData,
    deer_groups: &DeerGroups,
)
    ensures
        final(deer)@ == deer_flocking(
            old(deer)@,
            FlockRule::Cohesion,
            behavior_data.cohesion,
            *settings,
            *deer_groups,
        ),
{
    deer_flock(deer, FlockRule::Cohesion, &behavior_data.cohesion, settings, deer_groups);
}

/// Pushes every deer away from its neighbours, the nearer ones counting more.
pub fn deer_separation(
    deer: &mut Vec<Deer>,
    behavior_data: &DeerSteeringData,
    settings: &DeerData,
    deer_groups: &DeerGroups,
)
    ensures
        final(deer)@ == deer_flocking(
            old(deer)@,
            FlockRule::Separation,
            behavior_data.separation,
            *settings,
            *deer_groups,
        ),
{
    deer_flock(deer, FlockRule::Separation, &behavior_data.separation, settings, deer_groups);
}

/// A deer with no neighbour within the radius of a rule gathers no force from it.
pub proof fn law_no_neighbour_no_force(me: Deer, rule: FlockRule, herd: Seq<Deer>, data: FlockingData)
    requires
        forall|j: int|
            0 <= j < herd.len() ==> !me.flocks_with(#[trigger] herd[j], data.perception_radius as int),
    ensures
        me.flocked(rule, herd, data) == me.behavior.force,
{
    lemma_flock_size_zero(me, herd, data.perception_radius as int, herd.len() as int);
}

/// Where none of the first `n` deer is a neighbour, the count of neighbours is zero.
proof fn lemma_flock_size_zero(me: Deer, herd: Seq<Deer>, radius: int, n: int)
    requires
        0 <= n <= herd.len(),
        forall|j: int| 0 <= j < herd.len() ==> !me.flocks_with(#[trigger] herd[j], radius),
    ensures
        me.flock_size(herd, radius, n) == 0,
    decreases n,
{
    if n > 0 {
        lemma_flock_size_zero(me, herd, radius, n - 1);
    }
}

/// Deer of other herds count for nothing: the force that a rule gives a deer is the
/// same whether or not the deer of other herds are there.
pub proof fn law_flock_ignores_other_herds(
    me: Deer,
    rule: FlockRule,
    herd: Seq<Deer>,
    data: FlockingData,
)
    ensures
        me.flocked(rule, herd, data) == me.flocked(
            rule,
            herd.filter(|d: Deer| d.group == me.group),
            data,
        ),
{
    let own = |d: Deer| d.group == me.group;
    lemma_flock_sums_filtered(me, rule, herd, data.perception_radius as int, herd.len() as int);
    assert(herd.take(herd.len() as int) =~= herd);
}

/// The sums over the first `n` deer are the sums over those of them that belong
/// to the herd of `me`.
proof fn lemma_flock_sums_filtered(me: Deer, rule: FlockRule, herd: Seq<Deer>, radius: int, n: int)
    requires
        0 <= n <= herd.len(),
    ensures
        ({
            let own = herd.take(n).filter(|d: Deer| d.group == me.group);
            &&& me.flock_size(herd, radius, n) == me.flock_size(own, radius, own.len() as int)
            &&& me.flock_sum_x(rule, herd, radius, n) == me.flock_sum_x(
                rule,
                own,
                radius,
                own.len() as int,
            )
            &&& me.flock_sum_y(rule, herd, radius, n) == me.flock_sum_y(
                rule,
                own,
                radius,
                own.len() as int,
            )
        }),
    decreases n,
{
    let pred = |d: Deer| d.group == me.group;
    reveal(Seq::filter);
    if n > 0 {
        lemma_flock_sums_filtered(me, rule, herd, radius, n - 1);
        let before = herd.take(n - 1);
        let now = herd.take(n);
        assert(now.drop_last() =~= before);
        assert(now.last() == herd[n - 1]);
        let own_before = before.filter(pred);
        let own = now.filter(pred);
        if pred(herd[n - 1]) {
            assert(own == own_before.push(herd[n - 1]));
            lemma_flock_sums_prefix(me, rule, own, own_before, radius, own_before.len() as int);
        } else {
            assert(own == own_before);
        }
    } else {
        assert(herd.take(0).filter(pred) =~= Seq::<Deer>::empty());
    }
}

/// The sums over the first `n` deer depend on those deer only.
proof fn lemma_flock_sums_prefix(
    me: Deer,
    rule: FlockRule,
    a: Seq<Deer>,
    b: Seq<Deer>,
    radius: int,
    n: int,
)
    requires
        0 <= n <= a.len(),
        n <= b.len(),
        forall|j: int| 0 <= j < n ==> a[j] == b[j],
    ensures
        me.flock_size(a, radius, n) == me.flock_size(b, radius, n),
        me.flock_sum_x(rule, a, radius, n) == me.flock_sum_x(rule, b, radius, n),
        me.flock_sum_y(rule, a, radius, n) == me.flock_sum_y(rule, b, radius, n),
    decreases n,
{
    if n > 0 {
        lemma_flock_sums_prefix(me, rule, a, b, radius, n - 1);
    }
}

/// The deer of a new herd `id`, one at each of the places given.
pub open spec fn herd_placed(places: Seq<Vec2>, settings: DeerData, id: u32) -> Seq<Deer> {
    Seq::new(places.len(), |i: int| Deer::placed(places[i], settings, id))
}

/// Whether `place` lies within the spread of a herd centred on `origin`.
pub open spec fn near(origin: Vec2, place: Vec2) -> bool {
    &&& -HERD_SPREAD <= place.x - origin.x < HERD_SPREAD
    &&& -HERD_SPREAD <= place.y - origin.y < HERD_SPREAD
}

/// Whether every one of `places` lies within the spread of a herd centred on `origin`.
pub open spec fn all_near(origin: Vec2, places: Seq<Vec2>) -> bool {
    forall|i: int| 0 <= i < places.len() ==> near(origin, #[trigger] places[i])
}

/// The deer after the spawn step: one herd more, while not all herds have been made.
pub open spec fn deer_spawned(
    deer: Seq<Deer>,
    deer_groups: DeerGroups,
    settings: DeerData,
    id: u32,
    places: Seq<Vec2>,
) -> Seq<Deer> {
    if deer_groups.full(settings) {
        deer
    } else {
        deer + herd_placed(places, settings, id)
    }
}

/// The herds after the spawn step: one more, while not all have been made.
pub open spec fn groups_spawned(
    deer_groups: DeerGroups,
    settings: DeerData,
    id: u32,
    count: u32,
) -> Seq<DeerGroup> {
    if deer_groups.full(settings) {
        deer_groups.groups@
    } else {
        deer_groups.groups@.push(DeerGroup { id, count })
    }
}

/// The deer after the step of motion: every deer moved, once all herds have been
/// made.
pub open spec fn deer_moved(deer: Seq<Deer>, settings: DeerData, deer_groups: DeerGroups) -> Seq<
    Deer,
> {
    if deer_groups.full(settings) {
        deer.map_values(|d: Deer| d.moved())
    } else {
        deer
    }
}

/// The deer after wandering: once all herds have been made, the deer at each index
/// whose herd is listed has wandered with the displacement at the same index.
pub open spec fn deer_wandering(
    deer: Seq<Deer>,
    settings: DeerData,
    deer_groups: DeerGroups,
    data: WanderData,
    displacements: Seq<i32>,
) -> Seq<Deer> {
    if deer_groups.full(settings) {
        Seq::new(
            deer.len(),
            |i: int|
                if deer_groups.lists(deer[i].group.value) {
                    deer[i].wandered(data, displacement_at(displacements, i))
                } else {
                    deer[i]
                },
        )
    } else {
        deer
    }
}

/// The deer after one flocking rule: once all herds have been made, every deer has
/// gathered the force that the rule gives it among all the deer.
pub open spec fn deer_flocking(
    deer: Seq<Deer>,
    rule: FlockRule,
    data: FlockingData,
    settings: DeerData,
    deer_groups: DeerGroups,
) -> Seq<Deer> {
    if deer_groups.full(settings) {
        deer.map_values(|d: Deer| d.with_force(d.flocked(rule, deer, data)))
    } else {
        deer
    }
}

/// The deer after the walls have pushed: once all herds have been made, every
/// deer has gathered the push of each wall that it is about to run into.
pub open spec fn deer_walled(
    deer: Seq<Deer>,
    settings: DeerData,
    deer_groups: DeerGroups,
    weight: int,
    walls: Seq<WallData>,
) -> Seq<Deer> {
    if deer_groups.full(settings) {
        deer.map_values(
            |d: Deer|
                d.with_force(
                    walls_force(
                        d.behavior.force,
                        d.position,
                        d.physics.velocity,
                        d.speed,
                        weight,
                        walls,
                        walls.len() as int,
                    ),
                ),
        )
    } else {
        deer
    }
}

/// The deer in flight: once all herds have been made, every deer has gathered the
/// force away from each threat within reach.
pub open spec fn deer_fleeing(
    deer: Seq<Deer>,
    threats: Seq<Threat>,
    settings: DeerData,
    deer_groups: DeerGroups,
    weight: int,
) -> Seq<Deer> {
    if deer_groups.full(settings) {
        deer.map_values(
            |d: Deer| d.with_force(d.flight_force(weight, threats, threats.len() as int)),
        )
    } else {
        deer
    }
}

/// The deer evading: once all herds have been made, every deer has gathered the
/// force away from each wolf within reach.
pub open spec fn deer_evading(
    deer: Seq<Deer>,
    wolves: Seq<Wolf>,
    settings: DeerData,
    deer_groups: DeerGroups,
    weight: int,
) -> Seq<Deer> {
    if deer_groups.full(settings) {
        deer.map_values(
            |d: Deer| d.with_force(d.evasion_force(weight, wolves, wolves.len() as int)),
        )
    } else {
        deer
    }
}

/// The deer that no wolf and no bullet reaches, in their old order.
pub open spec fn deer_surviving(
    deer: Seq<Deer>,
    size: Vec2,
    wolves: Seq<Wolf>,
    wolf_size: Vec2,
    bullets: Seq<Bullet>,
    bullet_size: Vec2,
) -> Seq<Deer> {
    kept(
        deer,
        |d: Deer| !caught(wolves, wolf_size, bullets, bullet_size, d.position, size),
        deer.len() as int,
    )
}

/// Makes one herd with the identifier `id`, a deer at each of `places`, while not
/// all herds have been made.
pub fn deer_spawn_herd(
    deer: &mut Vec<Deer>,
    deer_groups: &mut DeerGroups,
    settings: &DeerData,
    id: u32,
    places: &Vec<Vec2>,
)
    requires
        places@.len() <= u32::MAX,
    ensures
        final(deer)@ == deer_spawned(old(deer)@, *old(deer_groups), *settings, id, places@),
        final(deer_groups).groups@ == groups_spawned(
            *old(deer_groups),
            *settings,
            id,
            places@.len() as u32,
        ),
{
    if deer_groups.is_full(settings) {
        return ;
    }
    deer_groups.groups.push(DeerGroup { id, count: places.len() as u32 });
    let mut i: usize = 0;
    while i < places.len()
        invariant
            i <= places.len(),
            deer@ == old(deer)@ + herd_placed(places@.take(i as int), *settings, id),
        decreases places.len() - i,
    {
        deer.push(
            Deer {
                position: places[i],
                physics: Physics::initial(),
                speed: MovementSpeed::new(settings.movement_speed),
                behavior: Behavior { force: Vec2::origin() },
                group: GroupID { value: id },
            },
        );
        assert(deer@ =~= old(deer)@ + herd_placed(places@.take(i + 1), *settings, id));
        i += 1;
    }
    assert(places@.take(places@.len() as int) =~= places@);
}

/// Picks `count` places within the spread of a herd centred on `origin`.
fn draw_places(origin: Vec2, count: u32, rng: &mut StdRng) -> (places: Vec<Vec2>)
    requires
        -0x4000_0000 <= origin.x <= 0x4000_0000,
        -0x4000_0000 <= origin.y <= 0x4000_0000,
    ensures
        places@.len() == count,
        all_near(origin, places@),
{
    let mut places: Vec<Vec2> = Vec::new();
    let mut i: u32 = 0;
    while i < count
        invariant
            i <= count,
            places@.len() == i,
            all_near(origin, places@),
            -0x4000_0000 <= origin.x <= 0x4000_0000,
            -0x4000_0000 <= origin.y <= 0x4000_0000,
        decreases count - i,
    {
        let x_offset: i64 = draw_between(rng, -(HERD_SPREAD as i64), HERD_SPREAD as i64);
        let y_offset: i64 = draw_between(rng, -(HERD_SPREAD as i64), HERD_SPREAD as i64);
        places.push(
            Vec2 { x: (origin.x as i64 + x_offset) as i32, y: (origin.y as i64 + y_offset) as i32 },
        );
        i += 1;
    }
    places
}

/// Draws a herd: a random identifier, and a random number of places, from three
/// up to, but not including, the greatest number, each within the spread of the
/// herd around a random point of the arena away from the walls.
fn draw_herd(field: &FieldSize, settings: &DeerData, rng: &mut StdRng) -> (herd: (u32, Vec<Vec2>))
    requires
        field.has_room(DEER_MARGIN as int),
        settings.max_number > MIN_HERD,
    ensures
        MIN_HERD <= herd.1@.len() < settings.max_number,
        exists|origin: Vec2|
            field.holds(DEER_MARGIN as int, origin) && #[trigger] all_near(origin, herd.1@),
{
    let origin = field.random_point(DEER_MARGIN, rng);
    let deer_count: u32 = draw_between(rng, MIN_HERD as i64, settings.max_number as i64) as u32;
    let id: u32 = draw_id(rng);
    assert(abs(2) == 2);
    assert(0 <= abs(field.width as int) / 2 <= 0x4000_0000);
    assert(0 <= abs(field.height as int) / 2 <= 0x4000_0000);
    let places = draw_places(origin, deer_count, rng);
    (id, places)
}

/// Makes one herd while not all herds have been made: of a random size from three
/// up to, but not including, the greatest number; with a random identifier; centred
/// on a random point of the arena away from the walls; each deer placed at random
/// within the spread of the herd.
pub fn deer_spawn(
    deer: &mut Vec<Deer>,
    deer_groups: &mut DeerGroups,
    field: &FieldSize,
    settings: &DeerData,
    rng: &mut StdRng,
)
    requires
        !old(deer_groups).full(*settings) ==> field.has_room(DEER_MARGIN as int)
            && settings.max_number > MIN_HERD,
    ensures
        old(deer_groups).full(*settings) ==> final(deer)@ == old(deer)@ && final(deer_groups).groups@
            == old(deer_groups).groups@,
        !old(deer_groups).full(*settings) ==> exists|origin: Vec2, places: Seq<Vec2>, id: u32|
            {
                &&& field.holds(DEER_MARGIN as int, origin)
                &&& #[trigger] all_near(origin, places)
                &&& MIN_HERD <= places.len() < settings.max_number
                &&& final(deer_groups).groups@ == #[trigger] groups_spawned(
                    *old(deer_groups),
                    *settings,
                    id,
                    places.len() as u32,
                )
                &&& final(deer)@ == deer_spawned(old(deer)@, *old(deer_groups), *settings, id, places)
            },
{
    if deer_groups.is_full(settings) {
        return ;
    }
    let (id, places) = draw_herd(field, settings, rng);
    deer_spawn_herd(deer, deer_groups, settings, id, &places);
}

/// Moves every deer by one step once all herds have been made: the gathered force
/// is consumed and cleared.
pub fn deer_move(deer: &mut Vec<Deer>, settings: &DeerData, deer_groups: &DeerGroups)
    ensures
        final(deer)@ == deer_moved(old(deer)@, *settings, *deer_groups),
{
    if !deer_groups.is_full(settings) {
        return ;
    }
    let mut i: usize = 0;
    while i < deer.len()
        invariant
            i <= deer.len(),
            deer@.len() == old(deer)@.len(),
            forall|j: int| 0 <= j < i ==> #[trigger] deer@[j] == old(deer)@[j].moved(),
            forall|j: int| i <= j < deer@.len() ==> #[trigger] deer@[j] == old(deer)@[j],
        decreases deer.len() - i,
    {
        let me = deer[i];
        let (position, physics) = integrate(me.position, me.physics, me.behavior.force, me.speed);
        deer[i] = Deer {
            position,
            physics,
            speed: me.speed,
            behavior: Behavior { force: Vec2::origin() },
            group: me.group,
        };
        i += 1;
    }
    assert(deer@ =~= deer_moved(old(deer)@, *settings, *deer_groups));
}

/// Lets every deer of a listed herd wander once all herds have been made, the
/// phase of the deer at each index moving on by the displacement at the same index.
pub fn deer_wander_by(
    deer: &mut Vec<Deer>,
    settings: &DeerData,
    deer_groups: &DeerGroups,
    behavior_data: &DeerSteeringData,
    displacements: &Vec<i32>,
)
    ensures
        final(deer)@ == deer_wandering(
            old(deer)@,
            *settings,
            *deer_groups,
            behavior_data.wander,
            displacements@,
        ),
{
    if !deer_groups.is_full(settings) {
        return ;
    }
    let mut i: usize = 0;
    while i < deer.len()
        invariant
            i <= deer.len(),
            deer@.len() == old(deer)@.len(),
            forall|j: int|
                0 <= j < i ==> #[trigger] deer@[j] == if deer_groups.lists(
                    old(deer)@[j].group.value,
                ) {
                    old(deer)@[j].wandered(
                        behavior_data.wander,
                        displacement_at(displacements@, j),
                    )
                } else {
                    old(deer)@[j]
                },
            forall|j: int| i <= j < deer@.len() ==> #[trigger] deer@[j] == old(deer)@[j],
        decreases deer.len() - i,
    {
        let me = deer[i];
        if deer_groups.has(me.group.value) {
            let displacement: i32 = if i < displacements.len() {
                displacements[i]
            } else {
                0
            };
            let (physics, force) = wander_step(
                me.position,
                me.physics,
                me.behavior.force,
                &behavior_data.wander,
                displacement,
            );
            deer[i] = Deer {
                position: me.position,
                physics,
                speed: me.speed,
                behavior: Behavior { force },
                group: me.group,
            };
        }
        i += 1;
    }
    assert(deer@ =~= deer_wandering(old(deer)@, *settings, *deer_groups, behavior_data.wander, displacements@));
}

/// Lets every deer of a listed herd wander once all herds have been made, each
/// phase moving on by a random displacement within the configured range.
pub fn deer_wander(
    deer: &mut Vec<Deer>,
    settings: &DeerData,
    deer_groups: &DeerGroups,
    behavior_data: &DeerSteeringData,
    rng: &mut StdRng,
)
    requires
        deer_groups.full(*settings) && old(deer)@.len() > 0
            ==> behavior_data.wander.displace_range > 0,
    ensures
        !deer_groups.full(*settings) ==> final(deer)@ == old(deer)@,
        deer_groups.full(*settings) ==> exists|displacements: Seq<i32>|
            {
                &&& displacements.len() == old(deer)@.len()
                &&& #[trigger] within_range(displacements, behavior_data.wander.displace_range as int)
                &&& final(deer)@ == deer_wandering(
                    old(deer)@,
                    *settings,
                    *deer_groups,
                    behavior_data.wander,
                    displacements,
                )
            },
{
    if !deer_groups.is_full(settings) {
        return ;
    }
    let displacements = draw_displacements(deer.len(), behavior_data.wander.displace_range, rng);
    deer_wander_by(deer, settings, deer_groups, behavior_data, &displacements);
}

/// Pushes every deer away from the walls it is about to run into, once all herds
/// have been made.
pub fn deer_evade_walls(
    deer: &mut Vec<Deer>,
    settings: &DeerData,
    deer_groups: &DeerGroups,
    behavior_data: &DeerSteeringData,
    walls: &Vec<WallData>,
)
    ensures
        final(deer)@ == deer_walled(
            old(deer)@,
            *settings,
            *deer_groups,
            behavior_data.evade_walls.weight as int,
            walls@,
        ),
{
    if !deer_groups.is_full(settings) {
        return ;
    }
    let mut i: usize = 0;
    while i < deer.len()
        invariant
            i <= deer.len(),
            deer@.len() == old(deer)@.len(),
            forall|j: int|
                0 <= j < i ==> #[trigger] deer@[j] == old(deer)@[j].with_force(
                    walls_force(
                        old(deer)@[j].behavior.force,
                        old(deer)@[j].position,
                        old(deer)@[j].physics.velocity,
                        old(deer)@[j].speed,
                        behavior_data.evade_walls.weight as int,
                        walls@,
                        walls@.len() as int,
                    ),
                ),
            forall|j: int| i <= j < deer@.len() ==> #[trigger] deer@[j] == old(deer)@[j],
        decreases deer.len() - i,
    {
        let me = deer[i];
        let force = evade_walls(
            me.behavior.force,
            me.position,
            me.physics.velocity,
            me.speed,
            behavior_data.evade_walls.weight,
            walls,
        );
        deer[i] = Deer {
            position: me.position,
            physics: me.physics,
            speed: me.speed,
            behavior: Behavior { force },
            group: me.group,
        };
        i += 1;
    }
    assert(deer@ =~= deer_walled(old(deer)@, *settings, *deer_groups, behavior_data.evade_walls.weight as int, walls@));
}

/// Drives every deer away from each threat within reach, once all herds have been
/// made. Each threat adds its own force.
pub fn deer_flee(
    deer: &mut Vec<Deer>,
    threats: &Vec<Threat>,
    settings: &DeerData,
    deer_groups: &DeerGroups,
    behavior_data: &DeerSteeringData,
)
    ensures
        final(deer)@ == deer_fleeing(
            old(deer)@,
            threats@,
            *settings,
            *deer_groups,
            behavior_data.flee.weight as int,
        ),
{
    if !deer_groups.is_full(settings) {
        return ;
    }
    let mut i: usize = 0;
    while i < deer.len()
        invariant
            i <= deer.len(),
            deer@.len() == old(deer)@.len(),
            forall|j: int|
                0 <= j < i ==> #[trigger] deer@[j] == old(deer)@[j].with_force(
                    old(deer)@[j].flight_force(
                        behavior_data.flee.weight as int,
                        threats@,
                        threats@.len() as int,
                    ),
                ),
            forall|j: int| i <= j < deer@.len() ==> #[trigger] deer@[j] == old(deer)@[j],
        decreases deer.len() - i,
    {
        let me = deer[i];
        let mut force = me.behavior.force;
        let mut k: usize = 0;
        while k < threats.len()
            invariant
                k <= threats.len(),
                force == me.flight_force(behavior_data.flee.weight as int, threats@, k as int),
            decreases threats.len() - k,
        {
            let threat = threats[k];
            if !(threat.position.x == me.position.x && threat.position.y == me.position.y)
                && dist(me.position, threat.position) < DEER_FLEE_RADIUS {
                let steer = flee(
                    me.position,
                    me.physics.velocity,
                    threat.position,
                    me.speed.per_step(),
                );
                force = force.add(steer.scale(behavior_data.flee.weight));
            }
            k += 1;
        }
        deer[i] = Deer {
            position: me.position,
            physics: me.physics,
            speed: me.speed,
            behavior: Behavior { force },
            group: me.group,
        };
        i += 1;
    }
    assert(deer@ =~= deer_fleeing(old(deer)@, threats@, *settings, *deer_groups, behavior_data.flee.weight as int));
}

/// Drives every deer away from the place where each wolf within reach is expected
/// to be, once all herds have been made. Each wolf adds its own force.
pub fn deer_evade(
    deer: &mut Vec<Deer>,
    wolves: &Vec<Wolf>,
    settings: &DeerData,
    deer_groups: &DeerGroups,
    behavior_data: &DeerSteeringData,
)
    ensures
        final(deer)@ == deer_evading(
            old(deer)@,
            wolves@,
            *settings,
            *deer_groups,
            behavior_data.evade.weight as int,
        ),
{
    if !deer_groups.is_full(settings) {
        return ;
    }
    let mut i: usize = 0;
    while i < deer.len()
        invariant
            i <= deer.len(),
            deer@.len() == old(deer)@.len(),
            forall|j: int|
                0 <= j < i ==> #[trigger] deer@[j] == old(deer)@[j].with_force(
                    old(deer)@[j].evasion_force(
                        behavior_data.evade.weight as int,
                        wolves@,
                        wolves@.len() as int,
                    ),
                ),
            forall|j: int| i <= j < deer@.len() ==> #[trigger] deer@[j] == old(deer)@[j],
        decreases deer.len() - i,
    {
        let me = deer[i];
        let mut force = me.behavior.force;
        let mut k: usize = 0;
        while k < wolves.len()
            invariant
                k <= wolves.len(),
                force == me.evasion_force(behavior_data.evade.weight as int, wolves@, k as int),
            decreases wolves.len() - k,
        {
            let wolf = wolves[k];
            if is_within(me.position, wolf.position, EVADE_RADIUS) {
                let steer = evade(
                    me.position,
                    me.physics.velocity,
                    wolf.position,
                    wolf.physics.velocity,
                    me.speed.per_step(),
                );
                force = force.add(steer.scale(behavior_data.evade.weight));
            }
            k += 1;
        }
        deer[i] = Deer {
            position: me.position,
            physics: me.physics,
            speed: me.speed,
            behavior: Behavior { force },
            group: me.group,
        };
        i += 1;
    }
    assert(deer@ =~= deer_evading(old(deer)@, wolves@, *settings, *deer_groups, behavior_data.evade.weight as int));
}

/// Removes every deer that a wolf or a bullet reaches. The first wolf that reaches
/// a deer feeds on it; a bullet that reaches a deer is spent.
pub fn deer_die(
    deer: &mut Vec<Deer>,
    wolves: &mut Vec<Wolf>,
    bullets: &mut Vec<Bullet>,
    deer_data: &DeerData,
    wolf_data: &WolfData,
    bullet_data: &BulletData,
    now: i32,
)
    ensures
        final(deer)@ == deer_surviving(
            old(deer)@,
            deer_data.size(),
            old(wolves)@,
            wolf_data.size(),
            old(bullets)@,
            bullet_data.size(),
        ),
        final(wolves)@ == fed_on_all(
            old(wolves)@,
            wolf_data.size(),
            deer_positions(old(deer)@),
            deer_data.size(),
            now,
            old(deer)@.len() as int,
        ),
        final(bullets)@ == bullets_left(
            old(bullets)@,
            bullet_data.size(),
            deer_positions(old(deer)@),
            deer_data.size(),
        ),
{
    let size = Vec2 { x: deer_data.width, y: deer_data.height };
    let wolf_size = Vec2 { x: wolf_data.width, y: wolf_data.height };
    let bullet_size = Vec2 { x: bullet_data.width, y: bullet_data.height };
    let mut positions: Vec<Vec2> = Vec::new();
    let mut i: usize = 0;
    while i < deer.len()
        invariant
            i <= deer.len(),
            deer@ == old(deer)@,
            positions@.len() == i,
            forall|j: int| 0 <= j < i ==> #[trigger] positions@[j] == deer@[j].position,
        decreases deer.len() - i,
    {
        positions.push(deer[i].position);
        i += 1;
    }
    assert(positions@ =~= deer_positions(old(deer)@));
    let dead = resolve_collisions(&positions, size, wolves, wolf_size, bullets, bullet_size, now);
    let ghost keep = |d: Deer|
        !caught(
            old(wolves)@,
            wolf_data.size(),
            old(bullets)@,
            bullet_data.size(),
            d.position,
            deer_data.size(),
        );
    let mut left: Vec<Deer> = Vec::new();
    let mut i: usize = 0;
    while i < deer.len()
        invariant
            i <= deer.len(),
            deer@ == old(deer)@,
            dead@.len() == deer@.len(),
            positions@ == deer_positions(old(deer)@),
            size == deer_data.size(),
            wolf_size == wolf_data.size(),
            bullet_size == bullet_data.size(),
            forall|j: int|
                0 <= j < positions@.len() ==> #[trigger] dead@[j] == caught(
                    old(wolves)@,
                    wolf_size,
                    old(bullets)@,
                    bullet_size,
                    positions@[j],
                    size,
                ),
            keep == |d: Deer|
                !caught(
                    old(wolves)@,
                    wolf_data.size(),
                    old(bullets)@,
                    bullet_data.size(),
                    d.position,
                    deer_data.size(),
                ),
            left@ == kept(old(deer)@, keep, i as int),
        decreases deer.len() - i,
    {
        assert(positions@[i as int] == deer@[i as int].position);
        assert(keep(deer@[i as int]) == !dead@[i as int]);
        if !dead[i] {
            left.push(deer[i]);
        }
        i += 1;
    }
    *deer = left;
}

/// While not all herds have been made the deer stand still: the wandering, the
/// threats, the flocking rules, the walls, the wolves and the motion leave every
/// deer as it was placed.
pub proof fn law_incomplete_herds_are_inert(
    world: World,
    spawned: Seq<Deer>,
    herds: DeerGroups,
    displacements: Seq<i32>,
)
    requires
        !herds.full(world.deer_data),
    ensures
        DeerPlugin::deer_in_motion(world, spawned, herds, displacements) == spawned,
{
}

/// The motion step consumes the force: none is left for the next step.
pub proof fn law_deer_force_is_consumed(deer: Deer)
    ensures
        deer.moved().behavior.force == Vec2::zero(),
        deer.moved().physics.acceleration == Vec2::zero(),
{
}

/// No more herds are made than the settings ask for: where this holds before a
/// step of the deer, it holds after it; and a step makes at most one herd.
pub proof fn law_herds_stay_within_target(
    pre: World,
    post: World,
    now: i32,
    id: u32,
    places: Seq<Vec2>,
    displacements: Seq<i32>,
)
    requires
        DeerPlugin::stepped(pre, post, now, id, places, displacements),
        pre.deer_groups.groups@.len() <= pre.deer_data.group_number,
    ensures
        post.deer_groups.groups@.len() <= post.deer_data.group_number,
        pre.deer_groups.groups@.len() <= post.deer_groups.groups@.len()
            <= pre.deer_groups.groups@.len() + 1,
        post.deer@.len() <= pre.deer@.len() + places.len(),
{
    let spawned = deer_spawned(pre.deer@, pre.deer_groups, pre.deer_data, id, places);
    let moved = DeerPlugin::deer_in_motion(pre, spawned, post.deer_groups, displacements);
    law_kept_selects(
        moved,
        |d: Deer|
            !caught(
                pre.wolves@,
                pre.wolf_data.size(),
                pre.bullets@,
                pre.bullet_data.size(),
                d.position,
                pre.deer_data.size(),
            ),
        moved.len() as int,
    );
}

/// Deer come by the spawn step alone: a step of the deer adds at most one herd,
/// and no deer once all herds have been made.
pub proof fn law_deer_come_by_spawn(
    pre: World,
    post: World,
    now: i32,
    id: u32,
    places: Seq<Vec2>,
    displacements: Seq<i32>,
)
    requires
        DeerPlugin::stepped(pre, post, now, id, places, displacements),
    ensures
        post.deer@.len() <= pre.deer@.len() + places.len(),
        pre.deer_groups.full(pre.deer_data) ==> post.deer@.len() <= pre.deer@.len(),
{
    let spawned = deer_spawned(pre.deer@, pre.deer_groups, pre.deer_data, id, places);
    let moved = DeerPlugin::deer_in_motion(pre, spawned, post.deer_groups, displacements);
    law_kept_selects(
        moved,
        |d: Deer|
            !caught(
                pre.wolves@,
                pre.wolf_data.size(),
                pre.bullets@,
                pre.bullet_data.size(),
                d.position,
                pre.deer_data.size(),
            ),
        moved.len() as int,
    );
}

/// The systems of the deer, run in their fixed order.
pub struct DeerPlugin;

impl DeerPlugin {
    /// The deer after every system of one step but the first and the last, given
    /// the deer and the herds as the spawn step left them: the wandering, the
    /// threats, the three flocking rules, the walls, the wolves and the motion, in
    /// this order.
    pub open spec fn deer_in_motion(
        world: World,
        spawned: Seq<Deer>,
        herds: DeerGroups,
        displacements: Seq<i32>,
    ) -> Seq<Deer> {
        let wandering = deer_wandering(
            spawned,
            world.deer_data,
            herds,
            world.deer_steering.wander,
            displacements,
        );
        let fleeing = deer_fleeing(
            wandering,
            threats_to_deer(world.wolves@, world.player),
            world.deer_data,
            herds,
            world.deer_steering.flee.weight as int,
        );
        let aligned = deer_flocking(
            fleeing,
            FlockRule::Alignment,
            world.deer_steering.alignment,
            world.deer_data,
            herds,
        );
        let gathered = deer_flocking(
            aligned,
            FlockRule::Cohesion,
            world.deer_steering.cohesion,
            world.deer_data,
            herds,
        );
        let parted = deer_flocking(
            gathered,
            FlockRule::Separation,
            world.deer_steering.separation,
            world.deer_data,
            herds,
        );
        let walled = deer_walled(
            parted,
            world.deer_data,
            herds,
            world.deer_steering.evade_walls.weight as int,
            world.walls.value@,
        );
        let evading = deer_evading(
            walled,
            world.wolves@,
            world.deer_data,
            herds,
            world.deer_steering.evade.weight as int,
        );
        deer_moved(evading, world.deer_data, herds)
    }

    /// Whether `post` is `pre` after one step of the deer, the new herd, if any,
    /// made with the identifier `id` at `places` and the wander phases displaced by
    /// `displacements`: the deer have gone through their systems and those that were
    /// caught are gone, the wolves that caught one have fed, the bullets that hit
    /// one are spent, and nothing else has changed.
    pub open spec fn stepped(
        pre: World,
        post: World,
        now: i32,
        id: u32,
        places: Seq<Vec2>,
        displacements: Seq<i32>,
    ) -> bool {
        let spawned = deer_spawned(pre.deer@, pre.deer_groups, pre.deer_data, id, places);
        let moved = Self::deer_in_motion(pre, spawned, post.deer_groups, displacements);
        &&& post.same_rules(pre)
        &&& post.deer_groups.groups@ == groups_spawned(
            pre.deer_groups,
            pre.deer_data,
            id,
            places.len() as u32,
        )
        &&& post.deer@ == deer_surviving(
            moved,
            pre.deer_data.size(),
            pre.wolves@,
            pre.wolf_data.size(),
            pre.bullets@,
            pre.bullet_data.size(),
        )
        &&& post.wolves@ == fed_on_all(
            pre.wolves@,
            pre.wolf_data.size(),
            deer_positions(moved),
            pre.deer_data.size(),
            now,
            moved.len() as int,
        )
        &&& post.bullets@ == bullets_left(
            pre.bullets@,
            pre.bullet_data.size(),
            deer_positions(moved),
            pre.deer_data.size(),
        )
        &&& post.active_wolves == pre.active_wolves
        &&& post.active_hares == pre.active_hares
        &&& post.hares@ == pre.hares@
        &&& post.player == pre.player
    }

    /// Whether the random systems of the deer can run on `world`: while not all
    /// herds have been made the arena has room for one more and a herd may have
    /// three deer, and once all have been made and there is a deer to wander, the
    /// wander phase has a range to be displaced in.
    pub open spec fn ready(world: World) -> bool {
        &&& !world.deer_groups.full(world.deer_data) ==> world.field.has_room(DEER_MARGIN as int)
            && world.deer_data.max_number > MIN_HERD
        &&& world.deer_groups.groups@.len() + 1 >= world.deer_data.group_number && (
        world.deer@.len() > 0 || !world.deer_groups.full(world.deer_data))
            ==> world.deer_steering.wander.displace_range > 0
    }

    /// Tests whether the random systems of the deer can run on `world`.
    pub fn can_update(&self, world: &World) -> (r: bool)
        ensures
            r == Self::ready(*world),
    {
        let spawning = !world.deer_groups.is_full(&world.deer_data);
        let wandering = !spawning || world.deer_groups.groups.len() + 1
            >= world.deer_data.group_number as usize;
        let any = spawning || world.deer.len() > 0;
        (!spawning || (world.field.roomy(DEER_MARGIN) && world.deer_data.max_number > MIN_HERD))
            && (!wandering || !any || world.deer_steering.wander.displace_range > 0)
    }

    /// Runs the systems of the deer for one step, in their fixed order: spawn,
    /// wander, threats, alignment, cohesion, separation, walls, wolves, motion,
    /// death. A new herd, if one is due, is made with the identifier `id` at
    /// `places`, and the wander phases are displaced by `displacements`.
    pub fn update_with(
        &self,
        world: &mut World,
        now: i32,
        id: u32,
        places: &Vec<Vec2>,
        displacements: &Vec<i32>,
    )
        requires
            places@.len() <= u32::MAX,
        ensures
            Self::stepped(*old(world), *final(world), now, id, places@, displacements@),
    {
        deer_spawn_herd(&mut world.deer, &mut world.deer_groups, &world.deer_data, id, places);
        deer_wander_by(
            &mut world.deer,
            &world.deer_data,
            &world.deer_groups,
            &world.deer_steering,
            displacements,
        );
        let threats = world.threats(false);
        deer_flee(
            &mut world.deer,
            &threats,
            &world.deer_data,
            &world.deer_groups,
            &world.deer_steering,
        );
        deer_alignment(&mut world.deer, &world.deer_steering, &world.deer_data, &world.deer_groups);
        deer_cohesion(&mut world.deer, &world.deer_steering, &world.deer_data, &world.deer_groups);
        deer_separation(
            &mut world.deer,
            &world.deer_steering,
            &world.deer_data,
            &world.deer_groups,
        );
        deer_evade_walls(
            &mut world.deer,
            &world.deer_data,
            &world.deer_groups,
            &world.deer_steering,
            &world.walls.value,
        );
        deer_evade(
            &mut world.deer,
            &world.wolves,
            &world.deer_data,
            &world.deer_groups,
            &world.deer_steering,
        );
        deer_move(&mut world.deer, &world.deer_data, &world.deer_groups);
        deer_die(
            &mut world.deer,
            &mut world.wolves,
            &mut world.bullets,
            &world.deer_data,
            &world.wolf_data,
            &world.bullet_data,
            now,
        );
    }

    /// Whether `post` is `pre` after one step of the species with some random input
    /// within its bounds.
    pub open spec fn advanced(pre: World, post: World, now: i32) -> bool {
        exists|id: u32, places: Seq<Vec2>, displacements: Seq<i32>|
            {
                &&& #[trigger] Self::stepped(
                    pre,
                    post,
                    now,
                    id,
                    places,
                    displacements,
                )
                &&& !pre.deer_groups.full(pre.deer_data) ==> MIN_HERD
                    <= places.len() < pre.deer_data.max_number && exists|origin: Vec2|
                    pre.field.holds(DEER_MARGIN as int, origin) && #[trigger] all_near(
                        origin,
                        places,
                    )
                &&& post.deer_groups.full(pre.deer_data) ==> within_range(
                    displacements,
                    pre.deer_steering.wander.displace_range as int,
                )
            }
    }

    /// Runs the systems of the deer for one step, in their fixed order, with a
    /// random herd, if one is due, and random displacements of the wander phases.
    pub fn update(&self, world: &mut World, now: i32, rng: &mut StdRng)
        requires
            Self::ready(*old(world)),
        ensures
            Self::advanced(*old(world), *final(world), now),
    {
        let spawning = !world.deer_groups.is_full(&world.deer_data);
        let (id, places) = if spawning {
            draw_herd(&world.field, &world.deer_data, rng)
        } else {
            (0, Vec::new())
        };
        let wandering = !spawning || world.deer_groups.groups.len() + 1
            >= world.deer_data.group_number as usize;
        let count = if usize::MAX - world.deer.len() >= places.len() {
            world.deer.len() + places.len()
        } else {
            usize::MAX
        };
        let displacements = if wandering {
            draw_displacements(count, world.deer_steering.wander.displace_range, rng)
        } else {
            Vec::new()
        };
        self.update_with(world, now, id, &places, &displacements);
    }
}

} // verus!
