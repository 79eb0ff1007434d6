//! The simulation context: the arena, the settings and every agent alive, and
//! what the agents see of each other.

use crate::components::{FieldSize, Prey, Threat, Walls};
use crate::deer::{
    deer_positions, deer_spawned, law_deer_come_by_spawn, law_herds_stay_within_target, Deer,
    DeerData, DeerGroups, DeerPlugin, DeerSteeringData, DEER_MARGIN, MIN_HERD,
};
use crate::hare::{
    hare_positions, law_hares_come_by_spawn, law_hares_stay_within_target, ActiveHares, Hare,
    HareData, HarePlugin, HareSteeringData, HARE_MARGIN,
};
use crate::player::{Bullet, BulletData, Player, PlayerData, PlayerPlugin};
use crate::predation::{law_meals_change_only_clocks, lemma_fed_on_keeps_places};
use crate::vector::Vec2;
use crate::wolf::{
    law_pack_stays_within_target, law_wolves_come_by_spawn, ActiveWolves, Wolf, WolfData,
    WolfPlugin, WolfSteeringData, WOLF_MARGIN,
};
use rand::rngs::StdRng;
use vstd::prelude::*;

verus! {

/// Everything that one step of the simulation reads or changes.
pub struct World {
    pub field: FieldSize,
    pub walls: Walls,
    pub hare_data: HareData,
    pub hare_steering: HareSteeringData,
    pub active_hares: ActiveHares,
    pub hares: Vec<Hare>,
    pub wolf_data: WolfData,
    pub wolf_steering: WolfSteeringData,
    pub active_wolves: ActiveWolves,
    pub wolves: Vec<Wolf>,
    pub deer_data: DeerData,
    pub deer_steering: DeerSteeringData,
    pub deer_groups: DeerGroups,
    pub deer: Vec<Deer>,
    pub player_data: PlayerData,
    pub bullet_data: BulletData,
    pub player: Option<Player>,
    pub bullets: Vec<Bullet>,
}

/// What a fleeing agent sees of the hares.
pub open spec fn hare_threats(hares: Seq<Hare>) -> Seq<Threat> {
    hares.map_values(|h: Hare| Threat { position: h.position })
}

/// What a fleeing agent sees of the wolves.
pub open spec fn wolf_threats(wolves: Seq<Wolf>) -> Seq<Threat> {
    wolves.map_values(|w: Wolf| Threat { position: w.position })
}

/// What a fleeing agent sees of the hunter.
pub open spec fn player_threats(player: Option<Player>) -> Seq<Threat> {
    match player {
        Some(hunter) => seq![Threat { position: hunter.position }],
        None => Seq::empty(),
    }
}

/// What a wolf sees of the hares.
pub open spec fn hare_prey(hares: Seq<Hare>) -> Seq<Prey> {
    hares.map_values(|h: Hare| Prey { position: h.position, velocity: h.physics.velocity })
}

/// What a wolf sees of the deer.
pub open spec fn deer_prey(deer: Seq<Deer>) -> Seq<Prey> {
    deer.map_values(|d: Deer| Prey { position: d.position, velocity: d.physics.velocity })
}

/// What a wolf sees of the hunter.
pub open spec fn player_prey(player: Option<Player>) -> Seq<Prey> {
    match player {
        Some(hunter) => seq![
            Prey { position: hunter.position, velocity: hunter.physics.velocity },
        ],
        None => Seq::empty(),
    }
}

/// The threats that a hare runs from: the hares, the wolves and the hunter.
pub open spec fn threats_to_hares(
    hares: Seq<Hare>,
    wolves: Seq<Wolf>,
    player: Option<Player>,
) -> Seq<Threat> {
    hare_threats(hares) + wolf_threats(wolves) + player_threats(player)
}

/// The threats that a deer runs from: the wolves and the hunter.
pub open spec fn threats_to_deer(wolves: Seq<Wolf>, player: Option<Player>) -> Seq<Threat> {
    wolf_threats(wolves) + player_threats(player)
}

/// The prey that a wolf hunts: the hares, the deer and the hunter.
pub open spec fn prey_of_wolves(
    hares: Seq<Hare>,
    deer: Seq<Deer>,
    player: Option<Player>,
) -> Seq<Prey> {
    hare_prey(hares) + deer_prey(deer) + player_prey(player)
}

impl World {
    /// Whether `other` has the same arena, walls and settings.
    pub open spec fn same_rules(self, other: World) -> bool {
        &&& self.field == other.field
        &&& self.walls.value@ == other.walls.value@
        &&& self.hare_data == other.hare_data
        &&& self.hare_steering == other.hare_steering
        &&& self.wolf_data == other.wolf_data
        &&& self.wolf_steering == other.wolf_steering
        &&& self.deer_data == other.deer_data
        &&& self.deer_steering == other.deer_steering
        &&& self.player_data == other.player_data
        &&& self.bullet_data == other.bullet_data
    }

    /// Whether the world holds no agent and no species has begun to spawn.
    pub open spec fn empty(self) -> bool {
        &&& self.hares@.len() == 0
        &&& self.wolves@.len() == 0
        &&& self.deer@.len() == 0
        &&& self.bullets@.len() == 0
        &&& self.deer_groups.groups@.len() == 0
        &&& self.active_hares.count == 0
        &&& self.active_wolves.count == 0
        &&& self.player is None
    }

    /// Makes an empty world with the arena `field`, its four walls and the settings
    /// given.
    pub fn new(
        field: FieldSize,
        hare: (HareData, HareSteeringData),
        wolf: (WolfData, WolfSteeringData),
        deer: (DeerData, DeerSteeringData),
        player_data: PlayerData,
        bullet_data: BulletData,
    ) -> (world: World)
        ensures
            world.empty(),
            world.field == field,
            world.walls.value@ == field.walls_spec(),
            world.hare_data == hare.0,
            world.hare_steering == hare.1,
            world.wolf_data == wolf.0,
            world.wolf_steering == wolf.1,
            world.deer_data == deer.0,
            world.deer_steering == deer.1,
            world.player_data == player_data,
            world.bullet_data == bullet_data,
    {
        World {
            field,
            walls: field.walls(),
            hare_data: hare.0,
            hare_steering: hare.1,
            active_hares: ActiveHares { count: 0 },
            hares: Vec::new(),
            wolf_data: wolf.0,
            wolf_steering: wolf.1,
            active_wolves: ActiveWolves { count: 0 },
            wolves: Vec::new(),
            deer_data: deer.0,
            deer_steering: deer.1,
            deer_groups: DeerGroups { groups: Vec::new() },
            deer: Vec::new(),
            player_data,
            bullet_data,
            player: None,
            bullets: Vec::new(),
        }
    }

    /// Whether the random systems of every species can run on this world, now and
    /// after any number of steps: for every species that is to be placed at all the
    /// arena has room, a herd may have three deer, and for every species that is to
    /// be placed or has a member the wander phase has a range to be displaced in.
    pub open spec fn ready(self) -> bool {
        &&& self.hare_data.max_number > 0 ==> self.field.has_room(HARE_MARGIN as int)
        &&& self.hare_data.max_number > 0 || self.hares@.len() > 0
            ==> self.hare_steering.wander.displace_range > 0
        &&& self.wolf_data.max_number > 0 ==> self.field.has_room(WOLF_MARGIN as int)
        &&& self.wolf_data.max_number > 0 || self.wolves@.len() > 0
            ==> self.wolf_steering.wander.displace_range > 0
        &&& self.deer_data.group_number > 0 ==> self.field.has_room(DEER_MARGIN as int)
            && self.deer_data.max_number > MIN_HERD
        &&& self.deer_data.group_number > 0 || self.deer@.len() > 0
            ==> self.deer_steering.wander.displace_range > 0
    }

    /// Tests whether the random systems of every species can run on this world.
    pub fn is_ready(&self) -> (r: bool)
        ensures
            r == self.ready(),
    {
        let hares = self.hare_data.max_number > 0;
        let wolves = self.wolf_data.max_number > 0;
        let herds = self.deer_data.group_number > 0;
        (!hares || self.field.roomy(HARE_MARGIN)) && (!(hares || self.hares.len() > 0)
            || self.hare_steering.wander.displace_range > 0) && (!wolves || self.field.roomy(
            WOLF_MARGIN,
        )) && (!(wolves || self.wolves.len() > 0) || self.wolf_steering.wander.displace_range > 0)
            && (!herds || (self.field.roomy(DEER_MARGIN) && self.deer_data.max_number > MIN_HERD))
            && (!(herds || self.deer.len() > 0) || self.deer_steering.wander.displace_range > 0)
    }

    /// Whether no species has outgrown its target: the hares and the wolves alive
    /// are no more than were placed, no more were placed than the settings allow,
    /// and no more herds were made than the settings ask for.
    pub open spec fn within_targets(self) -> bool {
        &&& self.hares@.len() <= self.active_hares.count <= self.hare_data.max_number
        &&& self.wolves@.len() <= self.active_wolves.count <= self.wolf_data.max_number
        &&& self.deer_groups.groups@.len() <= self.deer_data.group_number
    }

    /// Whether the random systems of every species can run on this world now.
    pub open spec fn tickable(self) -> bool {
        &&& HarePlugin::ready(self)
        &&& WolfPlugin::ready(self)
        &&& DeerPlugin::ready(self)
    }

    /// Tests whether the random systems of every species can run on this world now.
    pub fn can_tick(&self) -> (r: bool)
        ensures
            r == self.tickable(),
    {
        HarePlugin.can_update(self) && WolfPlugin.can_update(self) && DeerPlugin.can_update(self)
    }

    /// Whether the worlds given are the stages of one step of the whole simulation:
    /// the hunter's systems lead from `pre` to `a`, the hares' to `b`, the wolves'
    /// to `c` and the deer's to `post`.
    pub open spec fn staged(pre: World, a: World, b: World, c: World, post: World, now: i32) -> bool {
        &&& PlayerPlugin::stepped(pre, a, now)
        &&& HarePlugin::advanced(a, b, now)
        &&& WolfPlugin::advanced(b, c, now)
        &&& DeerPlugin::advanced(c, post, now)
    }

    /// Whether `post` is `pre` after one step of the whole simulation: the hunter's
    /// systems, then the hares', the wolves' and the deer's, each with some random
    /// input within its bounds.
    pub open spec fn ticked(pre: World, post: World, now: i32) -> bool {
        exists|a: World, b: World, c: World| #[trigger] World::staged(pre, a, b, c, post, now)
    }

    /// Advances the whole simulation by one step at the time `now`: the hunter's
    /// systems run first, then the hares', the wolves' and the deer's.
    pub fn tick(&mut self, now: i32, rng: &mut StdRng)
        requires
            old(self).tickable(),
        ensures
            World::ticked(*old(self), *final(self), now),
            old(self).ready() ==> final(self).ready(),
    {
        PlayerPlugin.update(self, now);
        let ghost a = *self;
        proof {
            lemma_hunter_keeps_the_pack(*old(self), a, now);
        }
        HarePlugin.update(self, now, rng);
        let ghost b = *self;
        proof {
            lemma_hares_keep_the_pack(a, b, now);
        }
        WolfPlugin.update(self, now, rng);
        let ghost c = *self;
        DeerPlugin.update(self, now, rng);
        assert(World::staged(*old(self), a, b, c, *self, now));
        proof {
            if old(self).ready() {
                law_ready_world_stays_ready(*old(self), *self, now);
            }
        }
    }

    /// Lists the threats that a deer runs from, and with `with_hares` those that
    /// a hare runs from.
    pub fn threats(&self, with_hares: bool) -> (r: Vec<Threat>)
        ensures
            with_hares ==> r@ == threats_to_hares(self.hares@, self.wolves@, self.player),
            !with_hares ==> r@ == threats_to_deer(self.wolves@, self.player),
    {
        let mut list: Vec<Threat> = Vec::new();
        if with_hares {
            let mut i: usize = 0;
            while i < self.hares.len()
                invariant
                    i <= self.hares.len(),
                    list@ == hare_threats(self.hares@.take(i as int)),
                decreases self.hares.len() - i,
            {
                list.push(Threat { position: self.hares[i].position });
                assert(list@ =~= hare_threats(self.hares@.take(i + 1)));
                i += 1;
            }
            assert(self.hares@.take(self.hares@.len() as int) =~= self.hares@);
        }
        let ghost first = list@;
        let mut i: usize = 0;
        while i < self.wolves.len()
            invariant
                i <= self.wolves.len(),
                list@ == first + wolf_threats(self.wolves@.take(i as int)),
            decreases self.wolves.len() - i,
        {
            list.push(Threat { position: self.wolves[i].position });
            assert(list@ =~= first + wolf_threats(self.wolves@.take(i + 1)));
            i += 1;
        }
        assert(self.wolves@.take(self.wolves@.len() as int) =~= self.wolves@);
        match self.player {
            Some(hunter) => {
                list.push(Threat { position: hunter.position });
            },
            None => {},
        }
        assert(list@ =~= first + wolf_threats(self.wolves@) + player_threats(self.player));
        assert(!with_hares ==> first + wolf_threats(self.wolves@) =~= wolf_threats(self.wolves@));
        list
    }

    /// Lists the prey that a wolf hunts.
    pub fn prey(&self) -> (r: Vec<Prey>)
        ensures
            r@ == prey_of_wolves(self.hares@, self.deer@, self.player),
    {
        let mut list: Vec<Prey> = Vec::new();
        let mut i: usize = 0;
        while i < self.hares.len()
            invariant
                i <= self.hares.len(),
                list@ == hare_prey(self.hares@.take(i as int)),
            decreases self.hares.len() - i,
        {
            let hare = self.hares[i];
            list.push(Prey { position: hare.position, velocity: hare.physics.velocity });
            assert(list@ =~= hare_prey(self.hares@.take(i + 1)));
            i += 1;
        }
        assert(self.hares@.take(self.hares@.len() as int) =~= self.hares@);
        let mut i: usize = 0;
        while i < self.deer.len()
            invariant
                i <= self.deer.len(),
                list@ == hare_prey(self.hares@) + deer_prey(self.deer@.take(i as int)),
            decreases self.deer.len() - i,
        {
            let deer = self.deer[i];
            list.push(Prey { position: deer.position, velocity: deer.physics.velocity });
            assert(list@ =~= hare_prey(self.hares@) + deer_prey(self.deer@.take(i + 1)));
            i += 1;
        }
        assert(self.deer@.take(self.deer@.len() as int) =~= self.deer@);
        match self.player {
            Some(hunter) => {
                list.push(Prey { position: hunter.position, velocity: hunter.physics.velocity });
            },
            None => {},
        }
        assert(list@ =~= prey_of_wolves(self.hares@, self.deer@, self.player));
        list
    }
}

/// The hunter's step leaves the pack at its size.
proof fn lemma_hunter_keeps_the_pack(pre: World, post: World, now: i32)
    requires
        PlayerPlugin::stepped(pre, post, now),
    ensures
        post.wolves@.len() == pre.wolves@.len(),
{
    if pre.player is Some {
        lemma_fed_on_keeps_places(
            pre.wolves@,
            pre.wolf_data.size(),
            pre.player->0.position,
            pre.player_data.size(),
            now,
        );
    }
}

/// A step of the hares leaves the pack at its size.
proof fn lemma_hares_keep_the_pack(pre: World, post: World, now: i32)
    requires
        HarePlugin::advanced(pre, post, now),
    ensures
        post.wolves@.len() == pre.wolves@.len(),
{
    let (place, displacements) = choose|place: Vec2, displacements: Seq<i32>| #[trigger]
        HarePlugin::stepped(pre, post, now, place, displacements);
    let hares = HarePlugin::hares_in_motion(pre, now, place, displacements);
    law_meals_change_only_clocks(
        pre.wolves@,
        pre.wolf_data.size(),
        hare_positions(hares),
        pre.hare_data.size(),
        now,
        hares.len() as int,
    );
}

/// A world that is ready for every step to come is so after any step.
pub proof fn law_ready_world_stays_ready(pre: World, post: World, now: i32)
    requires
        World::ticked(pre, post, now),
        pre.ready(),
    ensures
        post.ready(),
{
    let (a, b, c) = choose|a: World, b: World, c: World| #[trigger]
        World::staged(pre, a, b, c, post, now);
    lemma_hunter_keeps_the_pack(pre, a, now);
    lemma_hares_keep_the_pack(a, b, now);
    let (place, displacements) = choose|place: Vec2, displacements: Seq<i32>| #[trigger]
        HarePlugin::stepped(a, b, now, place, displacements);
    law_hares_come_by_spawn(a, b, now, place, displacements);
    let (place, displacements) = choose|place: Vec2, displacements: Seq<i32>| #[trigger]
        WolfPlugin::stepped(b, c, now, place, displacements);
    law_wolves_come_by_spawn(b, c, now, place, displacements);
    let (id, places, displacements) = choose|id: u32, places: Seq<Vec2>, displacements: Seq<i32>|
     #[trigger]
        DeerPlugin::stepped(c, post, now, id, places, displacements);
    law_deer_come_by_spawn(c, post, now, id, places, displacements);
    let spawned = deer_spawned(c.deer@, c.deer_groups, c.deer_data, id, places);
    let deer = DeerPlugin::deer_in_motion(c, spawned, post.deer_groups, displacements);
    law_meals_change_only_clocks(
        c.wolves@,
        c.wolf_data.size(),
        deer_positions(deer),
        c.deer_data.size(),
        now,
        deer.len() as int,
    );
}

/// No step of the simulation lets a species outgrow its target.
pub proof fn law_populations_stay_within_targets(pre: World, post: World, now: i32)
    requires
        World::ticked(pre, post, now),
        pre.within_targets(),
    ensures
        post.within_targets(),
{
    let (a, b, c) = choose|a: World, b: World, c: World| #[trigger]
        World::staged(pre, a, b, c, post, now);
    if pre.player is Some {
        lemma_fed_on_keeps_places(
            pre.wolves@,
            pre.wolf_data.size(),
            pre.player->0.position,
            pre.player_data.size(),
            now,
        );
    }
    assert(a.within_targets());
    let (place, displacements) = choose|place: Vec2, displacements: Seq<i32>| #[trigger]
        HarePlugin::stepped(a, b, now, place, displacements);
    let hares = HarePlugin::hares_in_motion(a, now, place, displacements);
    law_hares_stay_within_target(a, b, now, place, displacements);
    law_meals_change_only_clocks(
        a.wolves@,
        a.wolf_data.size(),
        hare_positions(hares),
        a.hare_data.size(),
        now,
        hares.len() as int,
    );
    assert(b.within_targets());
    let (place, displacements) = choose|place: Vec2, displacements: Seq<i32>| #[trigger]
        WolfPlugin::stepped(b, c, now, place, displacements);
    law_pack_stays_within_target(b, c, now, place, displacements);
    assert(c.within_targets());
    let (id, places, displacements) = choose|id: u32, places: Seq<Vec2>, displacements: Seq<i32>|
     #[trigger]
        DeerPlugin::stepped(c, post, now, id, places, displacements);
    let spawned = deer_spawned(c.deer@, c.deer_groups, c.deer_data, id, places);
    let deer = DeerPlugin::deer_in_motion(c, spawned, post.deer_groups, displacements);
    law_herds_stay_within_target(c, post, now, id, places, displacements);
    law_meals_change_only_clocks(
        c.wolves@,
        c.wolf_data.size(),
        deer_positions(deer),
        c.deer_data.size(),
        now,
        deer.len() as int,
    );
}

} // verus!
