//! Simulation core of a terminal breakout game: a paddle deflects a
//! projectile across a discrete grid to destroy blocks over two levels,
//! while the game state machine tracks score, lives and level.
//!
//! Everything here is pure grid logic with verified contracts; terminal
//! rendering and input polling live outside the library.

pub mod boundary;
pub mod command;
pub mod direction;
pub mod game;
pub mod obstacle;
pub mod paddle;
pub mod projectile;
