//! The discrete rules of an Asteroids game: asteroid sizes and the score
//! they are worth, how a shot or the ship resolves against the field,
//! keyboard handling, the asteroid spawn budget and the saucer's states.
//! Positions, velocities and rendering live with the application.

pub mod asteroid;
pub mod collisions;
pub mod score;
pub mod engine;
pub mod common;
pub mod ufo;
pub mod polygon;
pub mod ship;
