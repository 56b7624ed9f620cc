//! Core of a grid-based snake simulation: a segmented body moves on an
//! integer lattice, grows by eating food, and dies on hitting a wall or
//! itself. The host that renders the board, reads the keyboard and measures
//! time is kept outside; this crate holds the tick-driven movement, the
//! direction state machine, the collision rules and the food spawner, each
//! with a proved contract.

pub mod game;
pub mod grid;
mod rng;
pub mod snake;
