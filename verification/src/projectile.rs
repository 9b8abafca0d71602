//! Projectiles against targets: who is hit, what health is left, who dies.

use vstd::prelude::*;
use crate::distance::below;
use crate::target::{Health, HIT_DAMAGE};

verus! {

/// The key of the distance below which a projectile hits a target: four
/// tenths of a unit.
pub const HIT_RADIUS: u32 = 0x3ECC_CCCD;

/// Whether projectile `p` hits target `t`, where `distances[p][t]` is the
/// key of the distance between the two.
pub open spec fn hits(distances: Seq<Vec<u32>>, p: int, t: int) -> bool {
    below(distances[p]@[t], HIT_RADIUS)
}

/// How many of the projectiles before `p` hit target `t`.
pub open spec fn hits_before(distances: Seq<Vec<u32>>, t: int, p: int) -> nat
    decreases p,
{
    if p <= 0 {
        0
    } else {
        hits_before(distances, t, p - 1) + if hits(distances, p - 1, t) {
            1nat
        } else {
            0nat
        }
    }
}

/// The health of target `t` once the projectiles before `p` have had their
/// turn.
pub open spec fn health_before(start: Seq<Health>, distances: Seq<Vec<u32>>, t: int, p: int) -> int {
    start[t].0 - HIT_DAMAGE * hits_before(distances, t, p)
}

/// Whether projectile `p` kills target `t`: it hits, and its hit leaves the
/// target without health. A target that is already dead is killed again by
/// every further hit of the frame.
pub open spec fn kills(start: Seq<Health>, distances: Seq<Vec<u32>>, p: int, t: int) -> bool {
    hits(distances, p, t) && health_before(start, distances, t, p + 1) <= 0
}

/// The targets before `t` that projectile `p` kills, in order.
pub open spec fn kills_in_row(start: Seq<Health>, distances: Seq<Vec<u32>>, p: int, t: int) -> Seq<
    usize,
>
    decreases t,
{
    if t <= 0 {
        Seq::empty()
    } else {
        let earlier = kills_in_row(start, distances, p, t - 1);
        if kills(start, distances, p, t - 1) {
            earlier.push((t - 1) as usize)
        } else {
            earlier
        }
    }
}

/// The kills of the projectiles before `p`, projectile by projectile and
/// within one projectile target by target.
pub open spec fn kills_before(start: Seq<Health>, distances: Seq<Vec<u32>>, p: int) -> Seq<usize>
    decreases p,
{
    if p <= 0 {
        Seq::empty()
    } else {
        kills_before(start, distances, p - 1) + kills_in_row(
            start,
            distances,
            p - 1,
            start.len() as int,
        )
    }
}

/// Whether projectile `p` hits any target at all.
pub open spec fn spent(distances: Seq<Vec<u32>>, p: int) -> bool {
    exists|t: int| 0 <= t < distances[p]@.len() && #[trigger] hits(distances, p, t)
}

/// What a frame's collisions come to.
pub struct Collisions {
    /// For each projectile, whether it hit something and leaves the field.
    pub spent: Vec<bool>,
    /// The targets killed, one entry for each killing hit, in the order of
    /// the hits.
    pub kills: Vec<usize>,
}

/// Whether `distances` gives each projectile one distance for each of
/// `targets` targets.
pub open spec fn well_shaped(distances: Seq<Vec<u32>>, targets: nat) -> bool {
    forall|p: int| 0 <= p < distances.len() ==> (#[trigger] distances[p])@.len() == targets
}

/// Lets every projectile meet every target once, projectiles in order and
/// for each the targets in order. A projectile nearer to a target than the
/// hit radius takes `HIT_DAMAGE` from the target's health and is spent; it
/// still meets the remaining targets of its turn. A hit that leaves a target
/// without health is a kill.
pub fn projectile_collision(distances: &Vec<Vec<u32>>, health: &mut Vec<Health>) -> (out: Collisions)
    requires
        well_shaped(distances@, old(health)@.len()),
        forall|t: int|
            0 <= t < old(health)@.len() ==> (#[trigger] old(health)@[t]).0 - HIT_DAMAGE
                * distances@.len() >= i64::MIN,
    ensures
        final(health)@.len() == old(health)@.len(),
        forall|t: int|
            0 <= t < old(health)@.len() ==> (#[trigger] final(health)@[t]).0 == health_before(
                old(health)@,
                distances@,
                t,
                distances@.len() as int,
            ),
        out.spent@.len() == distances@.len(),
        forall|p: int| 0 <= p < distances@.len() ==> #[trigger] out.spent@[p] == spent(distances@, p),
        out.kills@ == kills_before(old(health)@, distances@, distances@.len() as int),
{
    let ghost start = health@;
    let targets = health.len();
    let mut spent_flags: Vec<bool> = Vec::new();
    let mut killed: Vec<usize> = Vec::new();
    let mut p: usize = 0;
    while p < distances.len()
        invariant
            p <= distances@.len(),
            targets == start.len(),
            health@.len() == start.len(),
            well_shaped(distances@, start.len()),
            forall|t: int|
                0 <= t < start.len() ==> (#[trigger] start[t]).0 - HIT_DAMAGE * distances@.len()
                    >= i64::MIN,
            forall|t: int|
                0 <= t < start.len() ==> (#[trigger] health@[t]).0 == health_before(
                    start,
                    distances@,
                    t,
                    p as int,
                ),
            spent_flags@.len() == p,
            forall|q: int| 0 <= q < p ==> #[trigger] spent_flags@[q] == spent(distances@, q),
            killed@ == kills_before(start, distances@, p as int),
        decreases distances@.len() - p,
    {
        let row = &distances[p];
        let ghost killed_before = killed@;
        let mut hit_any = false;
        let mut t: usize = 0;
        while t < targets
            invariant
                t <= targets,
                p < distances@.len(),
                targets == start.len(),
                health@.len() == start.len(),
                row@ == distances@[p as int]@,
                row@.len() == targets,
                forall|u: int|
                    0 <= u < start.len() ==> (#[trigger] start[u]).0 - HIT_DAMAGE
                        * distances@.len() >= i64::MIN,
                forall|u: int|
                    0 <= u < t ==> (#[trigger] health@[u]).0 == health_before(
                        start,
                        distances@,
                        u,
                        p + 1,
                    ),
                forall|u: int|
                    t <= u < start.len() ==> (#[trigger] health@[u]).0 == health_before(
                        start,
                        distances@,
                        u,
                        p as int,
                    ),
                hit_any == exists|u: int| 0 <= u < t && #[trigger] hits(distances@, p as int, u),
                killed@ == killed_before + kills_in_row(start, distances@, p as int, t as int),
            decreases targets - t,
        {
            let ghost ti = t as int;
            let ghost hit_any_before = hit_any;
            proof {
                lemma_hits_bounded(distances@, ti, p as int);
                lemma_hits_bounded(distances@, ti, p + 1);
                assert(HIT_DAMAGE * hits_before(distances@, ti, p + 1) <= HIT_DAMAGE
                    * distances@.len()) by (nonlinear_arith)
                    requires
                        hits_before(distances@, ti, p + 1) <= distances@.len(),
                ;
            }
            if row[t] < HIT_RADIUS {
                assert(hits(distances@, p as int, ti));
                let left = health[t].after_hit();
                health.set(t, left);
                hit_any = true;
                if left.depleted() {
                    killed.push(t);
                }
            }
            t += 1;
            proof {
                if hit_any_before {
                    let u = choose|u: int| 0 <= u < ti && #[trigger] hits(distances@, p as int, u);
                    assert(0 <= u < t && hits(distances@, p as int, u));
                }
                assert(killed@ =~= killed_before + kills_in_row(
                    start,
                    distances@,
                    p as int,
                    t as int,
                ));
            }
        }
        spent_flags.push(hit_any);
        p += 1;
        proof {
            assert(killed@ =~= kills_before(start, distances@, p as int));
        }
    }
    Collisions { spent: spent_flags, kills: killed }
}

/// Whether the death sound plays this frame: once if anything died, however
/// many did.
pub fn play_death_sound(deaths: usize) -> (play: bool)
    ensures
        play == (deaths > 0),
{
    deaths != 0
}

/// No target is hit more often than there are projectiles.
pub proof fn lemma_hits_bounded(distances: Seq<Vec<u32>>, t: int, p: int)
    requires
        0 <= p,
    ensures
        hits_before(distances, t, p) <= p,
    decreases p,
{
    if p > 0 {
        lemma_hits_bounded(distances, t, p - 1);
    }
}

/// Health only falls: after any number of projectiles a target has no more
/// health than it began with, and no less than the hits of all of them
/// would take.
pub proof fn health_only_falls(start: Seq<Health>, distances: Seq<Vec<u32>>, t: int, p: int)
    requires
        0 <= p,
    ensures
        start[t].0 - HIT_DAMAGE * p <= health_before(start, distances, t, p) <= start[t].0,
{
    lemma_hits_bounded(distances, t, p);
    assert(HIT_DAMAGE * hits_before(distances, t, p) <= HIT_DAMAGE * p) by (nonlinear_arith)
        requires
            hits_before(distances, t, p) <= p,
    ;
}

} // verus!
