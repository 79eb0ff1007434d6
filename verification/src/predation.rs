//! Death by collision: prey that a wolf reaches is eaten and feeds the wolf, prey
//! that a bullet reaches dies with the bullet.

use crate::components::{collide, overlaps};
use crate::player::Bullet;
use crate::vector::Vec2;
use crate::wolf::{Wolf, WolfBehavior};
use vstd::prelude::*;

verus! {

/// Those of the first `n` items that `keep` accepts, in their old order.
pub open spec fn kept<T>(items: Seq<T>, keep: spec_fn(T) -> bool, n: int) -> Seq<T>
    decreases n,
{
    if n <= 0 {
        Seq::empty()
    } else if keep(items[n - 1]) {
        kept(items, keep, n - 1).push(items[n - 1])
    } else {
        kept(items, keep, n - 1)
    }
}

/// Whether the box of `wolf` overlaps the box of the prey at `position`.
pub open spec fn bites(wolf: Wolf, wolf_size: Vec2, position: Vec2, size: Vec2) -> bool {
    overlaps(position, size, wolf.position, wolf_size)
}

/// Whether some wolf reaches the prey at `position`.
pub open spec fn bitten(wolves: Seq<Wolf>, wolf_size: Vec2, position: Vec2, size: Vec2) -> bool {
    exists|j: int| 0 <= j < wolves.len() && bites(#[trigger] wolves[j], wolf_size, position, size)
}

/// Whether the wolf at `j` is the first in the pack that reaches the prey.
pub open spec fn first_biter(
    wolves: Seq<Wolf>,
    wolf_size: Vec2,
    position: Vec2,
    size: Vec2,
    j: int,
) -> bool {
    &&& 0 <= j < wolves.len()
    &&& bites(wolves[j], wolf_size, position, size)
    &&& forall|k: int| 0 <= k < j ==> !bites(#[trigger] wolves[k], wolf_size, position, size)
}

/// The pack after the prey at `position` has met it: the first wolf that reaches
/// the prey has fed at `now`, and no other wolf has changed.
pub open spec fn fed_on(
    wolves: Seq<Wolf>,
    wolf_size: Vec2,
    position: Vec2,
    size: Vec2,
    now: i32,
) -> Seq<Wolf> {
    if bitten(wolves, wolf_size, position, size) {
        let j = choose|j: int| first_biter(wolves, wolf_size, position, size, j);
        wolves.update(j, wolves[j].fed_at(now))
    } else {
        wolves
    }
}

/// The pack after the first `n` prey have met it, one after the other.
pub open spec fn fed_on_all(
    wolves: Seq<Wolf>,
    wolf_size: Vec2,
    positions: Seq<Vec2>,
    size: Vec2,
    now: i32,
    n: int,
) -> Seq<Wolf>
    decreases n,
{
    if n <= 0 {
        wolves
    } else {
        fed_on(
            fed_on_all(wolves, wolf_size, positions, size, now, n - 1),
            wolf_size,
            positions[n - 1],
            size,
            now,
        )
    }
}

/// Whether one of the first `n` bullets reaches the prey at `position`.
pub open spec fn shot(
    bullets: Seq<Bullet>,
    bullet_size: Vec2,
    position: Vec2,
    size: Vec2,
    n: int,
) -> bool {
    exists|k: int|
        0 <= k < n && overlaps(position, size, (#[trigger] bullets[k]).position, bullet_size)
}

/// Whether `bullet` reaches one of the first `n` prey.
pub open spec fn spent(
    bullet: Bullet,
    bullet_size: Vec2,
    positions: Seq<Vec2>,
    size: Vec2,
    n: int,
) -> bool {
    exists|i: int|
        0 <= i < n && overlaps(#[trigger] positions[i], size, bullet.position, bullet_size)
}

/// Whether the prey at `position` dies: a wolf or a bullet reaches it.
pub open spec fn caught(
    wolves: Seq<Wolf>,
    wolf_size: Vec2,
    bullets: Seq<Bullet>,
    bullet_size: Vec2,
    position: Vec2,
    size: Vec2,
) -> bool {
    bitten(wolves, wolf_size, position, size) || shot(
        bullets,
        bullet_size,
        position,
        size,
        bullets.len() as int,
    )
}

/// The bullets that reach none of the prey, in their old order.
pub open spec fn bullets_left(
    bullets: Seq<Bullet>,
    bullet_size: Vec2,
    positions: Seq<Vec2>,
    size: Vec2,
) -> Seq<Bullet> {
    kept(
        bullets,
        |b: Bullet| !spent(b, bullet_size, positions, size, positions.len() as int),
        bullets.len() as int,
    )
}

/// Whether two packs hold the same number of wolves at the same places.
pub open spec fn same_places(a: Seq<Wolf>, b: Seq<Wolf>) -> bool {
    &&& a.len() == b.len()
    &&& forall|j: int| 0 <= j < a.len() ==> (#[trigger] a[j]).position == b[j].position
}

/// What is kept is a selection of the items: no longer than the list, holding only
/// items that `keep` accepts, and holding every item that it accepts.
pub proof fn law_kept_selects<T>(items: Seq<T>, keep: spec_fn(T) -> bool, n: int)
    requires
        0 <= n <= items.len(),
    ensures
        kept(items, keep, n).len() <= n,
        forall|k: int|
            0 <= k < kept(items, keep, n).len() ==> keep(#[trigger] kept(items, keep, n)[k])
                && items.take(n).contains(kept(items, keep, n)[k]),
        forall|i: int|
            0 <= i < n && keep(#[trigger] items[i]) ==> kept(items, keep, n).contains(items[i]),
    decreases n,
{
    if n > 0 {
        law_kept_selects(items, keep, n - 1);
        let before = kept(items, keep, n - 1);
        let now = kept(items, keep, n);
        assert forall|k: int| 0 <= k < now.len() implies keep(#[trigger] now[k]) && items.take(
            n,
        ).contains(now[k]) by {
            if k < before.len() {
                assert(now[k] == before[k]);
                let i = choose|i: int|
                    0 <= i < items.take(n - 1).len() && #[trigger] items.take(n - 1)[i]
                        == before[k];
                assert(items.take(n)[i] == before[k]);
            } else {
                assert(items.take(n)[n - 1] == now[k]);
            }
        }
        assert forall|i: int| 0 <= i < n && keep(#[trigger] items[i]) implies now.contains(
            items[i],
        ) by {
            if i < n - 1 {
                let k = choose|k: int| 0 <= k < before.len() && #[trigger] before[k] == items[i];
                assert(now[k] == items[i]);
            } else {
                assert(now[now.len() - 1] == items[i]);
            }
        }
    }
}

/// Meals change nothing but hunger clocks: after any number of prey the pack holds
/// as many wolves at the same places, and each clock shows its old time or `now`.
pub proof fn law_meals_change_only_clocks(
    wolves: Seq<Wolf>,
    wolf_size: Vec2,
    positions: Seq<Vec2>,
    size: Vec2,
    now: i32,
    n: int,
)
    ensures
        fed_on_all(wolves, wolf_size, positions, size, now, n).len() == wolves.len(),
        forall|j: int|
            0 <= j < wolves.len() ==> (#[trigger] fed_on_all(
                wolves,
                wolf_size,
                positions,
                size,
                now,
                n,
            )[j] == wolves[j] || fed_on_all(wolves, wolf_size, positions, size, now, n)[j]
                == wolves[j].fed_at(now)),
    decreases n,
{
    if n > 0 {
        law_meals_change_only_clocks(wolves, wolf_size, positions, size, now, n - 1);
        let before = fed_on_all(wolves, wolf_size, positions, size, now, n - 1);
        if bitten(before, wolf_size, positions[n - 1], size) {
            let w = choose|j: int|
                0 <= j < before.len() && bites(
                    #[trigger] before[j],
                    wolf_size,
                    positions[n - 1],
                    size,
                );
            lemma_first_biter_exists(before, wolf_size, positions[n - 1], size, w);
        }
    }
}

/// Feeding changes no wolf's place, so the same prey are within reach afterwards.
pub proof fn lemma_fed_on_keeps_places(
    wolves: Seq<Wolf>,
    wolf_size: Vec2,
    position: Vec2,
    size: Vec2,
    now: i32,
)
    ensures
        fed_on(wolves, wolf_size, position, size, now).len() == wolves.len(),
        forall|j: int|
            0 <= j < wolves.len() ==> (#[trigger] fed_on(
                wolves,
                wolf_size,
                position,
                size,
                now,
            )[j]).position == wolves[j].position,
{
    if bitten(wolves, wolf_size, position, size) {
        let w = choose|j: int|
            0 <= j < wolves.len() && bites(#[trigger] wolves[j], wolf_size, position, size);
        lemma_first_biter_exists(wolves, wolf_size, position, size, w);
    }
}

/// Where a wolf reaches the prey, some wolf is the first to do so.
pub proof fn lemma_first_biter_exists(
    wolves: Seq<Wolf>,
    wolf_size: Vec2,
    position: Vec2,
    size: Vec2,
    w: int,
)
    requires
        0 <= w < wolves.len(),
        bites(wolves[w], wolf_size, position, size),
    ensures
        exists|j: int| first_biter(wolves, wolf_size, position, size, j),
        first_biter(
            wolves,
            wolf_size,
            position,
            size,
            choose|j: int| first_biter(wolves, wolf_size, position, size, j),
        ),
    decreases w,
{
    if forall|k: int| 0 <= k < w ==> !bites(#[trigger] wolves[k], wolf_size, position, size) {
        assert(first_biter(wolves, wolf_size, position, size, w));
    } else {
        let k = choose|k: int| 0 <= k < w && bites(#[trigger] wolves[k], wolf_size, position, size);
        lemma_first_biter_exists(wolves, wolf_size, position, size, k);
    }
}

/// Lets the pack meet the prey at `position`: the first wolf whose box overlaps the
/// prey's feeds, its hunger clock set to `now`, and the search ends with it.
pub fn feed_first(
    wolves: &mut Vec<Wolf>,
    wolf_size: Vec2,
    position: Vec2,
    size: Vec2,
    now: i32,
) -> (eaten: bool)
    ensures
        eaten == bitten(old(wolves)@, wolf_size, position, size),
        final(wolves)@ == fed_on(old(wolves)@, wolf_size, position, size, now),
{
    let mut j: usize = 0;
    while j < wolves.len()
        invariant
            j <= wolves.len(),
            wolves@ == old(wolves)@,
            forall|k: int| 0 <= k < j ==> !bites(#[trigger] wolves@[k], wolf_size, position, size),
        decreases wolves.len() - j,
    {
        let wolf = wolves[j];
        if collide(position, size, wolf.position, wolf_size) {
            proof {
                lemma_first_biter_exists(wolves@, wolf_size, position, size, j as int);
                let c = choose|c: int| first_biter(wolves@, wolf_size, position, size, c);
                assert(c == j);
            }
            wolves[j] = Wolf {
                position: wolf.position,
                physics: wolf.physics,
                speed: wolf.speed,
                behavior: WolfBehavior {
                    force: wolf.behavior.force,
                    hunger_time: now,
                    max_hunger_time: wolf.behavior.max_hunger_time,
                },
            };
            return true;
        }
        j += 1;
    }
    false
}

/// Packs at the same places reach the same prey.
pub proof fn lemma_same_places_same_reach(
    a: Seq<Wolf>,
    b: Seq<Wolf>,
    wolf_size: Vec2,
    position: Vec2,
    size: Vec2,
)
    requires
        same_places(a, b),
    ensures
        bitten(a, wolf_size, position, size) == bitten(b, wolf_size, position, size),
{
    if bitten(a, wolf_size, position, size) {
        let j = choose|j: int| 0 <= j < a.len() && bites(#[trigger] a[j], wolf_size, position, size);
        assert(bites(b[j], wolf_size, position, size));
    }
    if bitten(b, wolf_size, position, size) {
        let j = choose|j: int| 0 <= j < b.len() && bites(#[trigger] b[j], wolf_size, position, size);
        assert(a[j].position == b[j].position);
        assert(bites(a[j], wolf_size, position, size));
    }
}

/// Settles one step of collisions between prey of one species, the pack and the
/// bullets. For each prey in turn, the first wolf that reaches it feeds; every
/// bullet that reaches it is spent. Returns, for each prey, whether it died.
/// A prey that a wolf and a bullet reach in the same step dies once.
pub fn resolve_collisions(
    positions: &Vec<Vec2>,
    size: Vec2,
    wolves: &mut Vec<Wolf>,
    wolf_size: Vec2,
    bullets: &mut Vec<Bullet>,
    bullet_size: Vec2,
    now: i32,
) -> (dead: Vec<bool>)
    ensures
        dead@.len() == positions@.len(),
        forall|i: int|
            0 <= i < positions@.len() ==> #[trigger] dead@[i] == caught(
                old(wolves)@,
                wolf_size,
                old(bullets)@,
                bullet_size,
                positions@[i],
                size,
            ),
        final(wolves)@ == fed_on_all(
            old(wolves)@,
            wolf_size,
            positions@,
            size,
            now,
            positions@.len() as int,
        ),
        final(bullets)@ == bullets_left(old(bullets)@, bullet_size, positions@, size),
{
    let mut dead: Vec<bool> = Vec::new();
    let mut hit: Vec<bool> = Vec::new();
    let mut k: usize = 0;
    while k < bullets.len()
        invariant
            k <= bullets.len(),
            hit@.len() == k,
            forall|m: int| 0 <= m < k ==> !(#[trigger] hit@[m]),
        decreases bullets.len() - k,
    {
        hit.push(false);
        k += 1;
    }
    let mut i: usize = 0;
    while i < positions.len()
        invariant
            i <= positions.len(),
            bullets@ == old(bullets)@,
            hit@.len() == bullets@.len(),
            dead@.len() == i,
            same_places(wolves@, old(wolves)@),
            wolves@ == fed_on_all(old(wolves)@, wolf_size, positions@, size, now, i as int),
            forall|m: int|
                0 <= m < hit@.len() ==> #[trigger] hit@[m] == spent(
                    bullets@[m],
                    bullet_size,
                    positions@,
                    size,
                    i as int,
                ),
            forall|m: int|
                0 <= m < i ==> #[trigger] dead@[m] == caught(
                    old(wolves)@,
                    wolf_size,
                    old(bullets)@,
                    bullet_size,
                    positions@[m],
                    size,
                ),
        decreases positions.len() - i,
    {
        let position = positions[i];
        proof {
            lemma_same_places_same_reach(wolves@, old(wolves)@, wolf_size, position, size);
            lemma_fed_on_keeps_places(wolves@, wolf_size, position, size, now);
        }
        let eaten = feed_first(wolves, wolf_size, position, size, now);
        let mut struck = false;
        let mut k: usize = 0;
        while k < bullets.len()
            invariant
                k <= bullets.len(),
                i < positions.len(),
                position == positions@[i as int],
                bullets@ == old(bullets)@,
                hit@.len() == bullets@.len(),
                struck == shot(bullets@, bullet_size, position, size, k as int),
                forall|m: int|
                    0 <= m < k ==> #[trigger] hit@[m] == spent(
                        bullets@[m],
                        bullet_size,
                        positions@,
                        size,
                        i + 1,
                    ),
                forall|m: int|
                    k <= m < hit@.len() ==> #[trigger] hit@[m] == spent(
                        bullets@[m],
                        bullet_size,
                        positions@,
                        size,
                        i as int,
                    ),
            decreases bullets.len() - k,
        {
            let bullet = bullets[k];
            let reached = collide(position, size, bullet.position, bullet_size);
            assert(spent(bullet, bullet_size, positions@, size, i + 1) == (spent(
                bullet,
                bullet_size,
                positions@,
                size,
                i as int,
            ) || reached));
            assert(shot(bullets@, bullet_size, position, size, k + 1) == (shot(
                bullets@,
                bullet_size,
                position,
                size,
                k as int,
            ) || reached));
            if reached {
                hit[k] = true;
                struck = true;
            }
            k += 1;
        }
        dead.push(eaten || struck);
        i += 1;
    }
    let mut left: Vec<Bullet> = Vec::new();
    let ghost keep = |b: Bullet| !spent(b, bullet_size, positions@, size, positions@.len() as int);
    let mut k: usize = 0;
    while k < bullets.len()
        invariant
            k <= bullets.len(),
            bullets@ == old(bullets)@,
            hit@.len() == bullets@.len(),
            keep == |b: Bullet| !spent(b, bullet_size, positions@, size, positions@.len() as int),
            forall|m: int|
                0 <= m < hit@.len() ==> #[trigger] hit@[m] == spent(
                    bullets@[m],
                    bullet_size,
                    positions@,
                    size,
                    positions@.len() as int,
                ),
            left@ == kept(old(bullets)@, keep, k as int),
        decreases bullets.len() - k,
    {
        assert(keep(bullets@[k as int]) == !hit@[k as int]);
        if !hit[k] {
            left.push(bullets[k]);
        }
        k += 1;
    }
    *bullets = left;
    dead
}

} // verus!
