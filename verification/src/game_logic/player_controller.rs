//! The per-tick stages that act on the ship: force reset, thrust, steering,
//! the speed limit and the wrap round the screen edges.

use vstd::prelude::*;
use crate::game_logic::raycast::RayCastEvent;
use crate::game_logic::schedule::{schedule, schedule_of, Schedule, System};
use crate::pixels::{half_extent, half_extent_of};
use crate::scalar::{Scalar, Vec2};

verus! {

/// The encoding of 1000.0, the strength of the repulsion at distance zero
/// from a hit, before the distance plus one divides it.
pub const REPULSION_STRENGTH: u32 = 0x447a_0000;

/// Registers the ship's systems, each in its schedule.
#[derive(Clone, Copy, Debug, PartialEq, Eq, Structural)]
pub struct PlayerControllerPlugin;

/// Marks the entity that the player steers.
#[derive(Clone, Copy, Debug, PartialEq, Eq, Structural)]
pub struct Player;

/// What a ship is built with; neither value changes after creation.
#[derive(Clone, Copy, Debug, PartialEq, Eq, Structural)]
pub struct Ship {
    pub engine_force: Scalar,
    pub max_vel: Scalar,
}

/// The force and torque that a body has gathered since the last reset.
#[derive(Clone, Copy, Debug, PartialEq, Eq, Structural)]
pub struct ExternalForce {
    pub force: Vec2,
    pub torque: Scalar,
}

/// Linear and angular velocity of a body.
#[derive(Clone, Copy, Debug, PartialEq, Eq, Structural)]
pub struct Velocity {
    pub linvel: Vec2,
    pub angvel: Scalar,
}

/// What one hit event owes, and to whom.
#[derive(Clone, Copy, Debug, PartialEq, Eq, Structural)]
pub enum Repulsion {
    /// The sensor has no parent, or its parent gathers no force: the event
    /// is passed over.
    Dropped,
    /// The hit lies on the ray's origin: `body` is owed the zero vector.
    Still { body: usize },
    /// `body` is owed a push along the line from the hit back to the origin.
    Away { body: usize },
}

impl PlayerControllerPlugin {
    /// The schedule to register `system` in: the spawn at startup, the force
    /// reset ahead of the update, the speed limit and the edge wrap after the
    /// physics engine has integrated, everything else in the update.
    pub fn schedule(&self, system: System) -> (place: Schedule)
        ensures
            place == schedule_of(system),
    {
        schedule(system)
    }
}

impl ExternalForce {
    /// The accumulator that holds nothing: zero force, zero torque.
    pub open spec fn cleared() -> ExternalForce {
        ExternalForce { force: Vec2::zero_value(), torque: Scalar::zero_value() }
    }
}

/// Where one coordinate lands once the screen edge is applied: beyond the
/// positive half extent it reappears at the negative one and the other way
/// round; on the edge itself, within it, or where a side is not a number, it
/// stays.
pub open spec fn wrapped(x: Scalar, half: Scalar) -> Scalar {
    if half.less(x) {
        half.negated()
    } else if x.less(half.negated()) {
        half
    } else {
        x
    }
}

/// The edge rule on both axes, each against its own half extent.
pub open spec fn wrapped_position(p: Vec2, half_width: Scalar, half_height: Scalar) -> Vec2 {
    Vec2 { x: wrapped(p.x, half_width), y: wrapped(p.y, half_height) }
}

/// The body that answers for `sensor`: its parent, where the store knows the
/// sensor, the sensor has a parent, and that parent gathers force.
pub open spec fn receiver_of(
    sensor: usize,
    parents: Seq<Option<usize>>,
    external_forces: Seq<Option<ExternalForce>>,
) -> Option<usize> {
    if sensor < parents.len() && parents[sensor as int] is Some && parents[sensor as int]->0
        < external_forces.len() && external_forces[parents[sensor as int]->0 as int] is Some {
        parents[sensor as int]
    } else {
        None
    }
}

/// What `event` owes: nothing without a receiver, the zero vector where the
/// hit coincides with the ray's origin, a push otherwise.
pub open spec fn repulsion_of(
    event: RayCastEvent,
    parents: Seq<Option<usize>>,
    external_forces: Seq<Option<ExternalForce>>,
) -> Repulsion {
    match receiver_of(event.raycast_entity, parents, external_forces) {
        None => Repulsion::Dropped,
        Some(body) => if event.intersection_point.same(event.origin) {
            Repulsion::Still { body }
        } else {
            Repulsion::Away { body }
        },
    }
}

/// The force that a repulsion adds, and the body it is added to. `away` is
/// the push that the caller worked out for the event.
pub open spec fn owed(r: Repulsion, away: Vec2) -> Option<(usize, Vec2)> {
    match r {
        Repulsion::Dropped => None,
        Repulsion::Still { body } => Some((body, Vec2::zero_value())),
        Repulsion::Away { body } => Some((body, away)),
    }
}

/// What the events of a tick owe, one answer per event, in their order.
pub open spec fn repulsions_of(
    events: Seq<RayCastEvent>,
    parents: Seq<Option<usize>>,
    external_forces: Seq<Option<ExternalForce>>,
) -> Seq<Repulsion> {
    Seq::new(events.len(), |i: int| repulsion_of(events[i], parents, external_forces))
}

/// What the thrust stage owes: `thrust` while "forward" is held, the zero
/// vector otherwise.
pub open spec fn thrust_owed(forward_held: bool, thrust: Vec2) -> Vec2 {
    if forward_held {
        thrust
    } else {
        Vec2::zero_value()
    }
}

/// Clears every accumulator handed in, so that the stages which follow add
/// to nothing left over from the tick before.
pub fn zero_out_external_forces(external_forces: &mut Vec<ExternalForce>)
    ensures
        final(external_forces)@.len() == old(external_forces)@.len(),
        forall|i: int|
            0 <= i < final(external_forces)@.len() ==> final(external_forces)@[i]
                == ExternalForce::cleared(),
{
    let n: usize = external_forces.len();
    let mut i: usize = 0;
    while i < n
        invariant
            i <= n,
            external_forces@.len() == n,
            forall|j: int| 0 <= j < i ==> external_forces@[j] == ExternalForce::cleared(),
        decreases n - i,
    {
        external_forces.set(i, ExternalForce { force: Vec2::new_zero(), torque: Scalar::new_zero() });
        i = i + 1;
    }
}

/// Takes the spin away from every velocity handed in and leaves its linear
/// part alone: the facing of a steered ship is set, not integrated.
pub fn zero_out_angular_velocity(velocities: &mut Vec<Velocity>)
    ensures
        final(velocities)@.len() == old(velocities)@.len(),
        forall|i: int|
            0 <= i < final(velocities)@.len() ==> final(velocities)@[i] == (Velocity {
                linvel: old(velocities)@[i].linvel,
                angvel: Scalar::zero_value(),
            }),
{
    let n: usize = velocities.len();
    let mut i: usize = 0;
    while i < n
        invariant
            i <= n,
            velocities@.len() == n,
            forall|j: int|
                0 <= j < i ==> velocities@[j] == (Velocity {
                    linvel: old(velocities)@[j].linvel,
                    angvel: Scalar::zero_value(),
                }),
            forall|j: int| i <= j < n ==> velocities@[j] == old(velocities)@[j],
        decreases n - i,
    {
        let linvel = velocities[i].linvel;
        velocities.set(i, Velocity { linvel, angvel: Scalar::new_zero() });
        i = i + 1;
    }
}

/// One coordinate against one half extent.
pub fn wrap_axis(x: Scalar, half: Scalar) -> (r: Scalar)
    ensures
        r == wrapped(x, half),
{
    if x.gt(half) {
        half.neg()
    } else if x.lt(half.neg()) {
        half
    } else {
        x
    }
}

/// Sends every position that left the screen to the opposite edge, each axis
/// on its own. The edges lie at half the viewport's width and height, both
/// given in device pixels.
pub fn loop_on_edge(translations: &mut Vec<Vec2>, window_width: u32, window_height: u32)
    ensures
        final(translations)@.len() == old(translations)@.len(),
        forall|i: int|
            0 <= i < final(translations)@.len() ==> final(translations)@[i] == wrapped_position(
                old(translations)@[i],
                half_extent_of(window_width),
                half_extent_of(window_height),
            ),
{
    let half_width = half_extent(window_width);
    let half_height = half_extent(window_height);
    let n: usize = translations.len();
    let mut i: usize = 0;
    while i < n
        invariant
            i <= n,
            translations@.len() == n,
            forall|j: int|
                0 <= j < i ==> translations@[j] == wrapped_position(
                    old(translations)@[j],
                    half_width,
                    half_height,
                ),
            forall|j: int| i <= j < n ==> translations@[j] == old(translations)@[j],
        decreases n - i,
    {
        let p = translations[i];
        let q = Vec2 { x: wrap_axis(p.x, half_width), y: wrap_axis(p.y, half_height) };
        translations.set(i, q);
        i = i + 1;
    }
}

/// Looks up the body that gathers the force of `sensor`'s hits. Entities are
/// named by their index: `parents` holds each entity's parent, and
/// `external_forces` each entity's accumulator, where it has one.
pub fn resolve_ship(
    sensor: usize,
    parents: &Vec<Option<usize>>,
    external_forces: &Vec<Option<ExternalForce>>,
) -> (body: Option<usize>)
    ensures
        body == receiver_of(sensor, parents@, external_forces@),
{
    if sensor >= parents.len() {
        return None;
    }
    match parents[sensor] {
        None => None,
        Some(parent) => {
            if parent < external_forces.len() && external_forces[parent].is_some() {
                Some(parent)
            } else {
                None
            }
        },
    }
}

/// Decides, for each hit event of this tick, whether it pushes a ship and
/// which one. The result answers the events one for one, in their order.
pub fn raycast_push_ship(
    raycast_events: &Vec<RayCastEvent>,
    parents: &Vec<Option<usize>>,
    external_forces: &Vec<Option<ExternalForce>>,
) -> (repulsions: Vec<Repulsion>)
    ensures
        repulsions@ == repulsions_of(raycast_events@, parents@, external_forces@),
{
    let mut repulsions: Vec<Repulsion> = Vec::new();
    let mut i: usize = 0;
    while i < raycast_events.len()
        invariant
            i <= raycast_events@.len(),
            repulsions@.len() == i,
            forall|j: int|
                0 <= j < i ==> repulsions@[j] == repulsion_of(
                    raycast_events@[j],
                    parents@,
                    external_forces@,
                ),
        decreases raycast_events@.len() - i,
    {
        let event = raycast_events[i];
        let r = match resolve_ship(event.raycast_entity, parents, external_forces) {
            None => Repulsion::Dropped,
            Some(body) => {
                if event.intersection_point.same_value(event.origin) {
                    Repulsion::Still { body }
                } else {
                    Repulsion::Away { body }
                }
            },
        };
        repulsions.push(r);
        i = i + 1;
    }
    repulsions
}

/// The force that `repulsion` adds to a body's accumulator, if any. `away`
/// is the unit vector from the hit back to the ray's origin, scaled by
/// `REPULSION_STRENGTH` over the hit's distance plus one; it is read only
/// where the hit lies off the origin.
pub fn repulsion_force(repulsion: Repulsion, away: Vec2) -> (force: Option<(usize, Vec2)>)
    ensures
        force == owed(repulsion, away),
{
    match repulsion {
        Repulsion::Dropped => None,
        Repulsion::Still { body } => Some((body, Vec2::new_zero())),
        Repulsion::Away { body } => Some((body, away)),
    }
}

/// What the thrust stage owes the ship's accumulator this tick: the thrust
/// along the facing axis while "forward" is held, the zero vector otherwise.
/// `thrust` is the facing direction scaled by the ship's engine force.
pub fn player_acceleration(forward_held: bool, thrust: Vec2) -> (contribution: Vec2)
    ensures
        contribution == thrust_owed(forward_held, thrust),
{
    if forward_held {
        thrust
    } else {
        Vec2::new_zero()
    }
}

/// The hard clamp on linear speed. `speed` is the length of the linear
/// velocity and `rescaled` the same direction at the ship's `max_vel`; the
/// velocity becomes `rescaled` exactly when `speed` is above `max_vel`.
pub fn limit_ship_speed(velocity: &mut Velocity, ship: &Ship, speed: Scalar, rescaled: Vec2)
    ensures
        final(velocity).angvel == old(velocity).angvel,
        final(velocity).linvel == if ship.max_vel.less(speed) {
            rescaled
        } else {
            old(velocity).linvel
        },
{
    if speed.gt(ship.max_vel) {
        velocity.linvel = rescaled;
    }
}

/// Turns the ship to face the pointer. `facing` is the angle from the ship
/// to the pointer, absent while the pointer is off the viewport: then
/// nothing changes.
pub fn point_player_at_mouse(rotation: &mut Scalar, facing: Option<Scalar>)
    ensures
        *final(rotation) == match facing {
            Some(angle) => angle,
            None => *old(rotation),
        },
{
    match facing {
        Some(angle) => {
            *rotation = angle;
        },
        None => {},
    }
}

/// A coordinate that lies exactly on an edge is not moved: only one that
/// is strictly beyond the edge wraps.
pub proof fn lemma_wrap_keeps_the_edge(half: Scalar)
    ensures
        wrapped(half, half) == half,
        wrapped(half.negated(), half) == half.negated(),
{
}

/// A coordinate moves only if it is strictly beyond one of the two edges.
pub proof fn lemma_wrap_moves_only_beyond_the_edge(x: Scalar, half: Scalar)
    ensures
        wrapped(x, half) != x ==> half.less(x) || x.less(half.negated()),
        !half.less(x) && !x.less(half.negated()) ==> wrapped(x, half) == x,
{
}

/// A wrapped coordinate is at rest: applying the edge rule once more, with
/// nothing having moved in between, leaves it where it is.
pub proof fn lemma_wrap_is_stable(x: Scalar, half: Scalar)
    ensures
        wrapped(wrapped(x, half), half) == wrapped(x, half),
{
}

/// A wrapped position is at rest on both axes.
pub proof fn lemma_wrapped_position_is_stable(p: Vec2, half_width: Scalar, half_height: Scalar)
    ensures
        wrapped_position(wrapped_position(p, half_width, half_height), half_width, half_height)
            == wrapped_position(p, half_width, half_height),
{
    lemma_wrap_is_stable(p.x, half_width);
    lemma_wrap_is_stable(p.y, half_height);
}

/// Whatever an event owes, it owes to the parent of its sensor, and that
/// parent has an accumulator to take it.
pub proof fn lemma_repulsion_reaches_an_accumulator(
    event: RayCastEvent,
    parents: Seq<Option<usize>>,
    external_forces: Seq<Option<ExternalForce>>,
    away: Vec2,
)
    ensures
        owed(repulsion_of(event, parents, external_forces), away) matches Some((body, _)) ==> {
            &&& event.raycast_entity < parents.len()
            &&& parents[event.raycast_entity as int] == Some(body)
            &&& body < external_forces.len()
            &&& external_forces[body as int] is Some
        },
{
}

/// A tick with no hit event and with "forward" not held: the reset leaves
/// every accumulator at the zero vector, the repulsion stage owes nothing,
/// and what the thrust stage owes is the zero vector.
pub proof fn lemma_idle_tick_owes_nothing(
    events: Seq<RayCastEvent>,
    parents: Seq<Option<usize>>,
    external_forces: Seq<Option<ExternalForce>>,
    thrust: Vec2,
)
    requires
        events.len() == 0,
    ensures
        ExternalForce::cleared().force == Vec2::zero_value(),
        repulsions_of(events, parents, external_forces).len() == 0,
        thrust_owed(false, thrust) == Vec2::zero_value(),
{
}

} // verus!
