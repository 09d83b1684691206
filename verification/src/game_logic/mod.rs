pub mod engine;
pub mod player_controller;
pub mod raycast;
pub mod schedule;
