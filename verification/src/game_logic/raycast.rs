//! Distance sensors and the hit events that their rays give rise to.

use vstd::prelude::*;
use crate::game_logic::schedule::{schedule, schedule_of, Schedule, System};
use crate::scalar::{Scalar, Vec2};

verus! {

/// The encoding of 1000.0, the range of a sensor made with `RayCast::new`.
pub const DEFAULT_MAX_DISTANCE: u32 = 0x447a_0000;

/// Registers the ray query.
#[derive(Clone, Copy, Debug, PartialEq, Eq, Structural)]
pub struct RayCastPlugin;

/// A fixed-angle, fixed-range probe mounted on a ship. The angle is in
/// radians, relative to the forward axis of whatever carries the sensor.
#[derive(Clone, Copy, Debug, PartialEq, Eq, Structural)]
pub struct RayCast {
    pub max_distance: Scalar,
    pub angle: Scalar,
}

/// One intersection that the physics world reported along a ray.
#[derive(Clone, Copy, Debug, PartialEq, Eq, Structural)]
pub struct RayHit {
    pub entity: usize,
    pub point: Vec2,
    pub normal: Vec2,
    pub toi: Scalar,
}

/// One ray of this tick and everything it struck. Entities are named by
/// their index in the store that holds them.
#[derive(Debug)]
pub struct Probe {
    pub raycast_entity: usize,
    pub origin: Vec2,
    pub direction: Vec2,
    pub hits: Vec<RayHit>,
}

/// One intersection of one sensor's ray with one obstacle, valid for the
/// tick that produced it.
#[derive(Clone, Copy, Debug, PartialEq, Eq, Structural)]
pub struct RayCastEvent {
    pub raycast_entity: usize,
    pub collision_entity: usize,
    pub intersection_point: Vec2,
    pub intersection_normal: Vec2,
    pub distance: Scalar,
    pub origin: Vec2,
    pub direction: Vec2,
}

impl RayCastPlugin {
    /// The schedule to register the ray query in: ahead of the update, in
    /// which its hits push the ship.
    pub fn schedule(&self) -> (place: Schedule)
        ensures
            place == schedule_of(System::RayCastSystem),
    {
        schedule(System::RayCastSystem)
    }
}

impl RayCast {
    /// A sensor at `angle` with the default range.
    pub fn new(angle: Scalar) -> (r: RayCast)
        ensures
            r == (RayCast { max_distance: Scalar { bits: DEFAULT_MAX_DISTANCE }, angle }),
    {
        RayCast { max_distance: Scalar::from_bits(DEFAULT_MAX_DISTANCE), angle }
    }
}

/// The event that reports hit `h` of the ray cast from `origin` along
/// `direction` by sensor `sensor`.
pub open spec fn event_of(sensor: usize, origin: Vec2, direction: Vec2, h: RayHit) -> RayCastEvent {
    RayCastEvent {
        raycast_entity: sensor,
        collision_entity: h.entity,
        intersection_point: h.point,
        intersection_normal: h.normal,
        distance: h.toi,
        origin,
        direction,
    }
}

/// The events of one ray: one per hit, in the order the hits were reported.
pub open spec fn events_of_probe(p: Probe) -> Seq<RayCastEvent> {
    Seq::new(p.hits@.len(), |j: int| event_of(p.raycast_entity, p.origin, p.direction, p.hits@[j]))
}

/// The events of the first `n` rays, ray after ray.
pub open spec fn events_of(probes: Seq<Probe>, n: int) -> Seq<RayCastEvent>
    decreases n,
{
    if n <= 0 {
        Seq::empty()
    } else {
        events_of(probes, n - 1) + events_of_probe(probes[n - 1])
    }
}

/// Turns what the rays of this tick struck into hit events: every hit of
/// every ray yields exactly one event, which carries the sensor, the struck
/// entity, the point, the normal and the distance of the hit, and the origin
/// and direction of the ray. A ray that struck nothing yields nothing.
pub fn ray_cast_system(probes: &Vec<Probe>) -> (events: Vec<RayCastEvent>)
    ensures
        events@ == events_of(probes@, probes@.len() as int),
{
    let mut events: Vec<RayCastEvent> = Vec::new();
    let mut i: usize = 0;
    while i < probes.len()
        invariant
            i <= probes@.len(),
            events@ == events_of(probes@, i as int),
        decreases probes@.len() - i,
    {
        let probe = &probes[i];
        let ghost before = events@;
        let mut j: usize = 0;
        while j < probe.hits.len()
            invariant
                j <= probe.hits@.len(),
                events@ == before + events_of_probe(*probe).subrange(0, j as int),
            decreases probe.hits@.len() - j,
        {
            let hit = probe.hits[j];
            events.push(
                RayCastEvent {
                    raycast_entity: probe.raycast_entity,
                    collision_entity: hit.entity,
                    intersection_point: hit.point,
                    intersection_normal: hit.normal,
                    distance: hit.toi,
                    origin: probe.origin,
                    direction: probe.direction,
                },
            );
            j = j + 1;
        }
        assert(events_of_probe(*probe).subrange(0, j as int) == events_of_probe(*probe));
        i = i + 1;
    }
    events
}

} // verus!
