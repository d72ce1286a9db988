//! Verified core of the JuiceBox fluid sandbox: the integer side of the simulation grid,
//! its spatial lookup table, tool and event decisions, and the small utilities around them.
pub mod error;

pub mod simulation;
pub mod util;
pub mod ui;
pub mod events;
pub mod file_system;
pub mod juice_renderer;
