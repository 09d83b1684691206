//! The order of a frame: which stage runs in which schedule, and where the
//! physics engine integrates between them.

use vstd::prelude::*;

verus! {

/// The schedules of a frame, in the order in which they run; `Startup` runs
/// once, before the first frame.
#[derive(Clone, Copy, Debug, PartialEq, Eq, Structural)]
pub enum Schedule {
    Startup,
    PreUpdate,
    Update,
    PostUpdate,
    Last,
}

/// The systems of the movement core.
#[derive(Clone, Copy, Debug, PartialEq, Eq, Structural)]
pub enum System {
    AddTestPlayer,
    RayCastSystem,
    ZeroOutExternalForces,
    PointPlayerAtMouse,
    LimitShipSpeed,
    ZeroOutAngularVelocity,
    PlayerAcceleration,
    LoopOnEdge,
    RaycastPushShip,
}

impl Schedule {
    /// The place of the schedule in a frame.
    pub open spec fn position(self) -> int {
        match self {
            Schedule::Startup => 0,
            Schedule::PreUpdate => 1,
            Schedule::Update => 2,
            Schedule::PostUpdate => 3,
            Schedule::Last => 4,
        }
    }

    /// The schedule in which the physics engine integrates forces into
    /// velocities and velocities into positions.
    pub open spec fn physics() -> Schedule {
        Schedule::PostUpdate
    }
}

impl System {
    /// Whether the system adds to a force accumulator.
    pub open spec fn adds_force(self) -> bool {
        self == System::PlayerAcceleration || self == System::RaycastPushShip
    }

    /// Whether the system prepares what the physics engine integrates: the
    /// facing, the forces, and the spin that is taken away.
    pub open spec fn feeds_physics(self) -> bool {
        self.adds_force() || self == System::PointPlayerAtMouse || self
            == System::ZeroOutAngularVelocity
    }

    /// Whether the system corrects what the physics engine has integrated:
    /// the velocity and the position.
    pub open spec fn follows_physics(self) -> bool {
        self == System::LimitShipSpeed || self == System::LoopOnEdge
    }
}

/// The schedule that `system` runs in. The spawn runs at startup. Each frame
/// opens with the force reset and the ray query, goes on with steering, the
/// spin reset and the two stages that add force, leaves the next schedule to
/// the physics engine, and closes with the speed limit and the edge wrap.
pub open spec fn schedule_of(system: System) -> Schedule {
    match system {
        System::AddTestPlayer => Schedule::Startup,
        System::RayCastSystem => Schedule::PreUpdate,
        System::ZeroOutExternalForces => Schedule::PreUpdate,
        System::PointPlayerAtMouse => Schedule::Update,
        System::ZeroOutAngularVelocity => Schedule::Update,
        System::PlayerAcceleration => Schedule::Update,
        System::RaycastPushShip => Schedule::Update,
        System::LimitShipSpeed => Schedule::Last,
        System::LoopOnEdge => Schedule::Last,
    }
}

/// The schedule to run the physics engine in.
pub fn physics_schedule() -> (schedule: Schedule)
    ensures
        schedule == Schedule::physics(),
{
    Schedule::PostUpdate
}

/// The schedule to register `system` in.
pub fn schedule(system: System) -> (schedule: Schedule)
    ensures
        schedule == schedule_of(system),
{
    match system {
        System::AddTestPlayer => Schedule::Startup,
        System::RayCastSystem | System::ZeroOutExternalForces => Schedule::PreUpdate,
        System::LimitShipSpeed | System::LoopOnEdge => Schedule::Last,
        System::PointPlayerAtMouse
        | System::ZeroOutAngularVelocity
        | System::PlayerAcceleration
        | System::RaycastPushShip => Schedule::Update,
    }
}

/// The spawn runs once, at startup, and every other system in a schedule of
/// the frame.
pub proof fn lemma_spawn_runs_at_startup(system: System)
    ensures
        schedule_of(System::AddTestPlayer) == Schedule::Startup,
        system != System::AddTestPlayer ==> Schedule::Startup.position() < schedule_of(
            system,
        ).position(),
{
}

/// In every frame the force reset runs in a schedule that comes before the
/// schedule of steering and of each system that adds force, and no system
/// that adds force runs as early as the reset: what those systems add, they
/// add to cleared accumulators.
pub proof fn lemma_reset_precedes_force(system: System)
    ensures
        system.adds_force() || system == System::PointPlayerAtMouse ==> schedule_of(
            System::ZeroOutExternalForces,
        ).position() < schedule_of(system).position(),
        schedule_of(system).position() <= schedule_of(System::ZeroOutExternalForces).position()
            ==> !system.adds_force(),
{
}

/// The rays are cast in a schedule that comes before the one in which their
/// hits push the ship: the events of a frame are consumed in that frame.
pub proof fn lemma_rays_precede_repulsion()
    ensures
        schedule_of(System::RayCastSystem).position() < schedule_of(
            System::RaycastPushShip,
        ).position(),
{
}

/// The physics engine divides the frame. Steering, thrust, repulsion, the
/// spin reset, and with them the force reset and the ray query, run before
/// it integrates; the speed limit and the edge wrap run after. No system of
/// the core shares its schedule.
pub proof fn lemma_physics_divides_the_frame(system: System)
    ensures
        system.feeds_physics() ==> schedule_of(system).position()
            < Schedule::physics().position(),
        system == System::ZeroOutExternalForces || system == System::RayCastSystem
            ==> schedule_of(system).position() < Schedule::physics().position(),
        system.follows_physics() ==> Schedule::physics().position() < schedule_of(
            system,
        ).position(),
        schedule_of(system) != Schedule::physics(),
        system.feeds_physics() || system.follows_physics() || system == System::AddTestPlayer
            || system == System::ZeroOutExternalForces || system == System::RayCastSystem,
{
}

/// Whatever feeds the physics engine runs before whatever corrects its
/// result.
pub proof fn lemma_feeding_precedes_correcting(before: System, after: System)
    requires
        before.feeds_physics(),
        after.follows_physics(),
    ensures
        schedule_of(before).position() < Schedule::physics().position() < schedule_of(
            after,
        ).position(),
{
}

} // verus!
