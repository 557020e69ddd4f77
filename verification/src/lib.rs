//! The game logic of a small ASCII exploration game: an endless map of
//! generated chunks, the player pawn and its key commands, and the networked
//! client's menu and chat state machine.
//!
//! `game` and `util` hold the stand-alone game, `shared` what the client and
//! the server share, and `client` the networked client.

pub mod integer;
pub mod text;
pub mod draw;
pub mod util;
pub mod game;
pub mod shared;
pub mod client;
pub mod laws;
