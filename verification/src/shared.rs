//! What the client and the server share: the generated world, the actors
//! and events that travel between them, and how a key command moves a pawn.

pub mod game;
pub mod actors;
pub mod events;
pub mod shared_behaviour;
