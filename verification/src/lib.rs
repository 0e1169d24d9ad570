//! Game rules of an endless road runner, kept apart from any engine.
//!
//! Every position is a whole number of world units, a billion to the pixel,
//! so that a speed in pixels per second times a frame time in nanoseconds is
//! an exact distance. The modules hold the scrolling grid and what is spawned
//! and removed around it, the player's animation and movement, collision
//! tests, and the score board.

pub mod units;
pub mod clock;
pub mod random;
pub mod text;
pub mod world_grid;
pub mod background;
pub mod grid;
pub mod moving_road;
pub mod environment;
pub mod scoreboard;
pub mod collision;
pub mod character;
pub mod log;
pub mod movement;
pub mod tileset;
pub mod character_spawn;
