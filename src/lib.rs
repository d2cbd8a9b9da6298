//! A ball-and-paddle block breaker: the simulation core on whole-unit integer coordinates.
pub mod ball;
pub mod game;
pub mod geometry;
pub mod paddle;
pub mod quads;
