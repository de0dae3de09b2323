//! Simulation core of a small Breakout-style arcade game.
//!
//! The core covers the arena geometry (four enclosing walls computed from
//! boundary constants), the velocity-driven motion of the ball at a fixed
//! tick rate, the lifecycle of per-state entities, and the state machine
//! that switches between the menu and the playing arena.
//!
//! All coordinates and velocities are carried as integer milli-units
//! (1000 milli-units = 1 world unit), so every computation here is exact
//! integer arithmetic.

pub mod geometry;
pub mod input;
pub mod motion;
pub mod state;
pub mod world;
pub mod machine;
