//! The actors the server replicates: pawns, the world's seed, the chat.

use vstd::prelude::*;

verus! {

/// The colour a point actor is drawn in.
#[derive(Copy, Clone, Debug, PartialEq, Eq, Structural)]
pub enum PointActorColor {
    Red,
    Blue,
    Yellow,
}

impl Default for PointActorColor {
    /// Red.
    fn default() -> (c: PointActorColor)
        ensures
            c == PointActorColor::Red,
    {
        PointActorColor::Red
    }
}

/// A pawn on the map: its tile coordinates and its colour.
#[derive(Copy, Clone, Debug, PartialEq, Eq, Structural)]
pub struct PointActor {
    pub x: i32,
    pub y: i32,
    pub color: PointActorColor,
}

impl PointActor {
    /// The actor at `(x, y)` in `color`.
    pub fn new(x: i32, y: i32, color: PointActorColor) -> (a: PointActor)
        ensures
            a == (PointActor { x, y, color }),
    {
        PointActor { x, y, color }
    }
}

/// The actor that tells every client the seed of the world's map.
#[derive(Copy, Clone, Debug, PartialEq, Eq, Structural)]
pub struct WorldActor {
    pub seed: u64,
}

impl WorldActor {
    /// The world actor for `seed`.
    pub fn new(seed: u64) -> (a: WorldActor)
        ensures
            a.seed == seed,
    {
        WorldActor { seed }
    }
}

/// One chat line: who wrote it and what.
#[derive(Clone, Debug, PartialEq, Eq)]
pub struct Message {
    pub name: String,
    pub body: String,
}

/// The actor that holds the chat's history.
#[derive(Clone, Debug)]
pub struct ChatActor {
    pub messages: Vec<Message>,
}

impl ChatActor {
    /// A chat with no message yet.
    pub fn new() -> (a: ChatActor)
        ensures
            a.messages@ == Seq::<Message>::empty(),
    {
        ChatActor { messages: Vec::new() }
    }
}

/// Every kind of actor that the server replicates to its clients.
#[derive(Clone, Debug)]
pub enum Actors {
    PointActor(PointActor),
    WorldActor(WorldActor),
    ChatActor(ChatActor),
}

} // verus!
