//! The simulation core of a small side-scrolling platformer.
//!
//! One tick reads a snapshot of the keyboard and the time that passed, moves
//! the player against the static terrain, picks and plays its animation and
//! collects what the player touches. Lengths are whole steps
//! (`geometry::UNIT` to a world unit), times are whole microseconds, and
//! speeds are world units per second, so that a speed times a time is a length
//! in steps.

pub mod animation;
pub mod catalog;
pub mod geometry;
pub mod input;
pub mod motion;
pub mod terrain;
pub mod world;
