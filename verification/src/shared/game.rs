//! The shared world.

pub mod map;
