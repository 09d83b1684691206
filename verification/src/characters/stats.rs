//! The stats that a character carries, and the rule of the health overflow.

use vstd::prelude::*;
use crate::scalar::Scalar;

verus! {

/// The encoding of 512.0, the health above which a character overflows.
pub const HEALTH_OVERFLOW: u32 = 0x4400_0000;

/// Names the health of a character.
#[derive(Clone, Copy, Debug, PartialEq, Eq, Structural)]
pub struct Health;

/// Names the speed of a character.
#[derive(Clone, Copy, Debug, PartialEq, Eq, Structural)]
pub struct Speed;

/// Names the damage that a character deals.
#[derive(Clone, Copy, Debug, PartialEq, Eq, Structural)]
pub struct Damage;

/// Names the knockback that a character deals.
#[derive(Clone, Copy, Debug, PartialEq, Eq, Structural)]
pub struct Knockback;

/// Reports the entity whose health went over the limit.
#[derive(Clone, Copy, Debug, PartialEq, Eq, Structural)]
pub struct HealthOverflowEvent(pub usize);

impl Health {
    /// Whether `current` is above the overflow limit.
    pub open spec fn overflowing(current: Scalar) -> bool {
        (Scalar { bits: HEALTH_OVERFLOW }).less(current)
    }

    pub fn overflows(current: Scalar) -> (r: bool)
        ensures
            r == Health::overflowing(current),
    {
        current.gt(Scalar::from_bits(HEALTH_OVERFLOW))
    }
}

/// The overflow events of the first `n` readings: one for each whose health
/// is above the limit, in the readings' order.
pub open spec fn overflow_events(healths: Seq<(usize, Scalar)>, n: int) -> Seq<HealthOverflowEvent>
    decreases n,
{
    if n <= 0 {
        Seq::empty()
    } else if Health::overflowing(healths[n - 1].1) {
        overflow_events(healths, n - 1).push(HealthOverflowEvent(healths[n - 1].0))
    } else {
        overflow_events(healths, n - 1)
    }
}

/// Goes through the health readings that changed, each an entity with its
/// current health, and reports every entity whose health is above the limit.
pub fn trigger_overflow_mechanic(healths: &Vec<(usize, Scalar)>) -> (events: Vec<
    HealthOverflowEvent,
>)
    ensures
        events@ == overflow_events(healths@, healths@.len() as int),
{
    let mut events: Vec<HealthOverflowEvent> = Vec::new();
    let mut i: usize = 0;
    while i < healths.len()
        invariant
            i <= healths@.len(),
            events@ == overflow_events(healths@, i as int),
        decreases healths@.len() - i,
    {
        let reading = healths[i];
        if Health::overflows(reading.1) {
            events.push(HealthOverflowEvent(reading.0));
        }
        i = i + 1;
    }
    events
}

} // verus!
