//! Targets: their health, and when and of which kind a new one appears.

use vstd::prelude::*;
use rand::Rng;

verus! {

/// The health that a target starts with.
pub const FULL_HEALTH: i64 = 300;

/// What one hit takes from a target's health.
pub const HIT_DAMAGE: i64 = 15;

/// A target's health, in whole points. A target dies when it has none left.
#[derive(Clone, Copy, Debug, PartialEq, Eq, Structural)]
pub struct Health(pub i64);

/// The kind of a target: its place in the catalogue of target models.
#[derive(Clone, Copy, Debug, PartialEq, Eq, Structural)]
pub struct TargetKind(pub usize);

impl Health {
    /// The health of a fresh target.
    pub fn full() -> (h: Health)
        ensures
            h.0 == FULL_HEALTH,
    {
        Health(FULL_HEALTH)
    }

    /// Whether nothing is left.
    pub open spec fn is_depleted(self) -> bool {
        self.0 <= 0
    }

    /// Tells whether nothing is left.
    pub fn depleted(self) -> (b: bool)
        ensures
            b == self.is_depleted(),
    {
        self.0 <= 0
    }

    /// The health after one more hit. Health keeps falling below zero when a
    /// dead target is hit again before it leaves the field.
    pub fn after_hit(self) -> (h: Health)
        requires
            self.0 - HIT_DAMAGE >= i64::MIN,
        ensures
            h.0 == self.0 - HIT_DAMAGE,
    {
        Health(self.0 - HIT_DAMAGE)
    }
}

/// A fresh target dies with its twentieth hit and not before.
pub proof fn twenty_hits_kill(hits: nat)
    ensures
        FULL_HEALTH - HIT_DAMAGE * hits <= 0 <==> hits >= 20,
{
}

/// Draws a place below `len` from the thread's random number generator
/// (`rand::rng`, then `random_range` over `0..len`). Of the place that comes
/// back only this is claimed: it lies below `len`. The range must not be
/// empty, as `random_range` panics on an empty one.
#[verifier::external_body]
fn random_index(len: usize) -> (i: usize)
    requires
        len > 0,
    ensures
        i < len,
{
    rand::rng().random_range(0..len)
}

/// Whether `kind` may come out of a spawn for the given timer and catalogue.
pub open spec fn spawn_allowed(timer_just_finished: bool, catalog_len: usize, kind: Option<
    TargetKind,
>) -> bool {
    match kind {
        Some(k) => timer_just_finished && k.0 < catalog_len,
        None => !timer_just_finished || catalog_len == 0,
    }
}

/// Settles a spawn once the draw is known: a target of the drawn kind where
/// the spawn timer has just run out and the catalogue holds that kind,
/// nothing otherwise.
pub fn spawn_of_kind(timer_just_finished: bool, catalog_len: usize, drawn: usize) -> (kind: Option<
    TargetKind,
>)
    ensures
        kind == if timer_just_finished && drawn < catalog_len {
            Some(TargetKind(drawn))
        } else {
            None
        },
{
    if timer_just_finished && drawn < catalog_len {
        Some(TargetKind(drawn))
    } else {
        None
    }
}

/// Decides whether a target appears this frame and of which kind. One
/// appears exactly when the spawn timer has just run out and the catalogue
/// is not empty; its kind is drawn at random among the catalogue's.
pub fn spawn_targets(timer_just_finished: bool, catalog_len: usize) -> (kind: Option<TargetKind>)
    ensures
        spawn_allowed(timer_just_finished, catalog_len, kind),
{
    if !timer_just_finished {
        return None;
    }
    if catalog_len == 0 {
        return None;
    }
    let drawn = random_index(catalog_len);
    spawn_of_kind(timer_just_finished, catalog_len, drawn)
}

} // verus!
