//! The stand-alone terminal game: its own map, how it draws it, and its turn-by-turn session.

pub mod map;
pub mod draw;
pub mod session;
