use too_many_cooks::characters::stats::HEALTH_OVERFLOW;
use too_many_cooks::game_logic::player_controller::{PlayerControllerPlugin, REPULSION_STRENGTH};
use too_many_cooks::game_logic::raycast::{RayCastPlugin, DEFAULT_MAX_DISTANCE};
use too_many_cooks::game_logic::schedule::{physics_schedule, schedule, Schedule, System};
use too_many_cooks::scalar::{HIDDEN_BIT, INFINITY_MAGNITUDE, SIGN_BIT};

fn place(schedule: Schedule) -> u8 {
    match schedule {
        Schedule::Startup => 0,
        Schedule::PreUpdate => 1,
        Schedule::Update => 2,
        Schedule::PostUpdate => 3,
        Schedule::Last => 4,
    }
}

#[test]
fn constants_encode_the_numbers_they_are_named_for() {
    assert_eq!(REPULSION_STRENGTH, 1000.0f32.to_bits());
    assert_eq!(DEFAULT_MAX_DISTANCE, 1000.0f32.to_bits());
    assert_eq!(HEALTH_OVERFLOW, 512.0f32.to_bits());
    assert_eq!(SIGN_BIT, (-0.0f32).to_bits());
    assert_eq!(INFINITY_MAGNITUDE, f32::INFINITY.to_bits());
    assert_eq!(HIDDEN_BIT, 1u32 << 23);
}

#[test]
fn spawn_runs_at_startup_and_reset_before_the_update() {
    let plugin = PlayerControllerPlugin;
    assert_eq!(plugin.schedule(System::AddTestPlayer), Schedule::Startup);
    assert_eq!(plugin.schedule(System::ZeroOutExternalForces), Schedule::PreUpdate);
}

#[test]
fn steering_spin_reset_thrust_and_repulsion_run_in_the_update() {
    let plugin = PlayerControllerPlugin;
    for system in [
        System::PointPlayerAtMouse,
        System::ZeroOutAngularVelocity,
        System::PlayerAcceleration,
        System::RaycastPushShip,
    ] {
        assert_eq!(plugin.schedule(system), Schedule::Update);
    }
}

#[test]
fn speed_limit_and_edge_wrap_run_last() {
    let plugin = PlayerControllerPlugin;
    assert_eq!(plugin.schedule(System::LimitShipSpeed), Schedule::Last);
    assert_eq!(plugin.schedule(System::LoopOnEdge), Schedule::Last);
}

#[test]
fn physics_runs_between_the_update_and_the_last_schedule() {
    assert_eq!(physics_schedule(), Schedule::PostUpdate);
    for system in [
        System::ZeroOutExternalForces,
        System::RayCastSystem,
        System::PointPlayerAtMouse,
        System::ZeroOutAngularVelocity,
        System::PlayerAcceleration,
        System::RaycastPushShip,
    ] {
        assert!(place(schedule(system)) < place(physics_schedule()));
    }
    for system in [System::LimitShipSpeed, System::LoopOnEdge] {
        assert!(place(physics_schedule()) < place(schedule(system)));
    }
}

#[test]
fn rays_are_cast_before_their_hits_push_the_ship() {
    assert_eq!(RayCastPlugin.schedule(), Schedule::PreUpdate);
    assert_eq!(RayCastPlugin.schedule(), schedule(System::RayCastSystem));
    assert!(place(RayCastPlugin.schedule()) < place(schedule(System::RaycastPushShip)));
}

#[test]
fn reset_runs_before_every_system_that_adds_force() {
    let reset = place(schedule(System::ZeroOutExternalForces));
    assert!(reset < place(schedule(System::PlayerAcceleration)));
    assert!(reset < place(schedule(System::RaycastPushShip)));
    assert!(reset < place(schedule(System::PointPlayerAtMouse)));
}

#[test]
fn both_plugins_answer_from_the_same_plan() {
    let plugin = PlayerControllerPlugin;
    for system in [
        System::AddTestPlayer,
        System::RayCastSystem,
        System::ZeroOutExternalForces,
        System::PointPlayerAtMouse,
        System::LimitShipSpeed,
        System::ZeroOutAngularVelocity,
        System::PlayerAcceleration,
        System::LoopOnEdge,
        System::RaycastPushShip,
    ] {
        assert_eq!(plugin.schedule(system), schedule(system));
    }
}
