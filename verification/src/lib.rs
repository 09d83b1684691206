//! Decision core of a sensor-steered vessel: which forces are owed to which
//! body, when a velocity is clamped, when a position wraps round the screen.

pub mod appstate;
pub mod characters;
pub mod game_logic;
pub mod pixels;
pub mod scalar;
