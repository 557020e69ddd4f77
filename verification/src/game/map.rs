//! The stand-alone game's endless map of generated chunks.

use vstd::prelude::*;
use std::collections::HashMap;
use crate::shared::game::map::{chunk_key, chunk_key_of, lemma_chunk_key_injective};

pub use crate::shared::game::map::Tile;

verus! {

/// The side of a square chunk of the stand-alone game, in tiles.
pub const CHUNK_SIZE: usize = 50;

/// `CHUNK_SIZE` as an `i32`, for arithmetic on map coordinates.
pub const CHUNK_SIZE_I32: i32 = 50;

/// Calls `rand::random::<bool>()`: a coin flip from the thread's generator,
/// of which nothing is stated.
#[verifier::external_body]
fn random_bool() -> (b: bool) {
    rand::random()
}

/// A square block of `CHUNK_SIZE` by `CHUNK_SIZE` tiles, indexed `tiles[x][y]`.
pub struct Chunk {
    pub tiles: [[Tile; CHUNK_SIZE]; CHUNK_SIZE],
}

impl Chunk {
    /// The tile at column `x`, row `y`.
    pub open spec fn tile(&self, x: int, y: int) -> Tile {
        self.tiles@[x]@[y]
    }

    /// A chunk of air only.
    pub fn new() -> (c: Chunk)
        ensures
            forall|x: int, y: int|
                0 <= x < CHUNK_SIZE && 0 <= y < CHUNK_SIZE ==> #[trigger] c.tile(x, y) == Tile::Air,
    {
        let row: [Tile; CHUNK_SIZE] = [Tile::Air; CHUNK_SIZE];
        Chunk { tiles: [row; CHUNK_SIZE] }
    }

    /// Turns into a wall each tile whose coin flip came up `true`, reading
    /// the flips column by column: tile `(x, y)` takes flip
    /// `x * CHUNK_SIZE + y`. The other tiles stay as they were.
    pub fn apply_flips(&mut self, flips: &Vec<bool>)
        requires
            flips.len() == CHUNK_SIZE * CHUNK_SIZE,
        ensures
            forall|x: int, y: int|
                0 <= x < CHUNK_SIZE && 0 <= y < CHUNK_SIZE ==> #[trigger] final(self).tile(x, y)
                    == if flips@[x * CHUNK_SIZE + y] {
                    Tile::Wall
                } else {
                    old(self).tile(x, y)
                },
    {
        let ghost start = self.tiles;
        for x in 0..CHUNK_SIZE
            invariant
                flips.len() == CHUNK_SIZE * CHUNK_SIZE,
                forall|i: int, j: int|
                    0 <= i < x && 0 <= j < CHUNK_SIZE ==> #[trigger] self.tiles@[i]@[j] == if flips@[i
                        * CHUNK_SIZE + j] {
                        Tile::Wall
                    } else {
                        start@[i]@[j]
                    },
                forall|i: int, j: int|
                    x <= i < CHUNK_SIZE && 0 <= j < CHUNK_SIZE ==> #[trigger] self.tiles@[i]@[j]
                        == start@[i]@[j],
        {
            for y in 0..CHUNK_SIZE
                invariant
                    0 <= x < CHUNK_SIZE,
                    flips.len() == CHUNK_SIZE * CHUNK_SIZE,
                    forall|i: int, j: int|
                        0 <= i < x && 0 <= j < CHUNK_SIZE ==> #[trigger] self.tiles@[i]@[j]
                            == if flips@[i * CHUNK_SIZE + j] {
                            Tile::Wall
                        } else {
                            start@[i]@[j]
                        },
                    forall|j: int|
                        0 <= j < y ==> #[trigger] self.tiles@[x as int]@[j] == if flips@[x
                            * CHUNK_SIZE + j] {
                            Tile::Wall
                        } else {
                            start@[x as int]@[j]
                        },
                    forall|i: int, j: int|
                        x < i < CHUNK_SIZE && 0 <= j < CHUNK_SIZE ==> #[trigger] self.tiles@[i]@[j]
                            == start@[i]@[j],
                    forall|j: int|
                        y <= j < CHUNK_SIZE ==> #[trigger] self.tiles@[x as int]@[j]
                            == start@[x as int]@[j],
            {
                if flips[x * CHUNK_SIZE + y] {
                    self.tiles[x][y] = Tile::Wall;
                }
            }
        }
    }

    /// Fills the chunk with one coin flip per tile, column by column, and a
    /// wall where the flip is `true`. Whatever the flips, each tile ends as
    /// a wall or as it was.
    pub fn generate(&mut self)
        ensures
            forall|x: int, y: int|
                0 <= x < CHUNK_SIZE && 0 <= y < CHUNK_SIZE ==> {
                    ||| #[trigger] final(self).tile(x, y) == Tile::Wall
                    ||| final(self).tile(x, y) == old(self).tile(x, y)
                },
    {
        let mut flips: Vec<bool> = Vec::new();
        for i in 0..CHUNK_SIZE * CHUNK_SIZE
            invariant
                flips.len() == i,
        {
            flips.push(random_bool());
        }
        self.apply_flips(&flips);
    }
}

/// The endless world of the stand-alone game: the chunks generated so far,
/// keyed by chunk coordinates.
pub struct WorldMap {
    chunks: HashMap<u64, Chunk>,
}

impl WorldMap {
    /// The chunks generated so far, by chunk coordinates.
    pub closed spec fn chunks(&self) -> Map<(i32, i32), Chunk> {
        Map::new(
            |p: (i32, i32)| self.chunks@.contains_key(chunk_key(p.0, p.1) as u64),
            |p: (i32, i32)| self.chunks@[chunk_key(p.0, p.1) as u64],
        )
    }

    /// A map with no chunk yet.
    pub fn new() -> (m: WorldMap)
        ensures
            m.chunks() == Map::<(i32, i32), Chunk>::empty(),
    {
        let m = WorldMap { chunks: HashMap::new() };
        assert(m.chunks() =~= Map::<(i32, i32), Chunk>::empty());
        m
    }

    /// The chunk at chunk coordinates `(x, y)`, if it was generated.
    pub fn get_chunk(&self, x: i32, y: i32) -> (c: Option<&Chunk>)
        ensures
            match c {
                Some(c) => self.chunks().contains_key((x, y)) && *c == self.chunks()[(x, y)],
                None => !self.chunks().contains_key((x, y)),
            },
    {
        broadcast use vstd::std_specs::hash::group_hash_axioms;
        let k = chunk_key_of(x, y);
        self.chunks.get(&k)
    }

    /// The chunk at chunk coordinates `(x, y)`, generated first if there is
    /// none yet: a chunk of air filled by coin flips (see
    /// `Chunk::generate`). Where the chunk exists, nothing changes.
    pub fn get_chunk_or_create(&mut self, x: i32, y: i32) -> (c: &Chunk)
        ensures
            final(self).chunks() == old(self).chunks().insert((x, y), *c),
            old(self).chunks().contains_key((x, y)) ==> *final(self) == *old(self),
    {
        broadcast use vstd::std_specs::hash::group_hash_axioms;
        let k = chunk_key_of(x, y);
        let ghost before = self.chunks();
        if !self.chunks.contains_key(&k) {
            let mut chunk = Chunk::new();
            chunk.generate();
            self.chunks.insert(k, chunk);
            proof {
                assert forall|p: (i32, i32)| p != (x, y) implies chunk_key(p.0, p.1) != chunk_key(x, y) by {
                    lemma_chunk_key_injective(p.0, p.1, x, y);
                }
                assert(self.chunks() =~= before.insert((x, y), chunk));
            }
        } else {
            assert(before.insert((x, y), before[(x, y)]) =~= before);
        }
        let c = self.chunks.get(&k);
        c.unwrap()
    }

    /// The chunk that holds the tile at `(x, y)`, if it was generated: the
    /// chunk at `(x / CHUNK_SIZE, y / CHUNK_SIZE)`, where `/` is Rust's
    /// division of `i32`, rounded toward zero.
    pub fn get_chunk_from_point(&self, x: i32, y: i32) -> (c: Option<&Chunk>)
        ensures
            ({
                let p = (
                    crate::shared::game::map::trunc_div(x as int, CHUNK_SIZE as int) as i32,
                    crate::shared::game::map::trunc_div(y as int, CHUNK_SIZE as int) as i32,
                );
                match c {
                    Some(c) => self.chunks().contains_key(p) && *c == self.chunks()[p],
                    None => !self.chunks().contains_key(p),
                }
            }),
    {
        self.get_chunk(x / CHUNK_SIZE_I32, y / CHUNK_SIZE_I32)
    }
}

} // verus!
