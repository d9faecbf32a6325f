//! Authoritative server core of a two-player paddle-and-ball game.
//!
//! Coordinates are fixed-point integers: one pixel is `geometry::SUBPIXELS`
//! units, so the physics is exact integer arithmetic.

pub mod geometry;
pub mod world;
pub mod physics;
pub mod service;
