//! The endless map of generated chunks that client and server share.

use vstd::prelude::*;
use rand::rngs::SmallRng;
use rand::RngCore;
use rand::SeedableRng;
use std::collections::HashMap;

verus! {

/// The side of a square chunk, in tiles.
pub const CHUNK_SIZE: usize = 32;

/// `CHUNK_SIZE` as an `i32`, for arithmetic on map coordinates.
pub const CHUNK_SIZE_I32: i32 = 32;

/// Declares `rand::rngs::SmallRng`, the seeded generator that fills chunks.
#[verifier::external_type_specification]
#[verifier::external_body]
pub struct ExSmallRng(SmallRng);

/// Calls `RngCore::next_u32` on a `SmallRng`: the generator's next draw.
/// Nothing is stated of the value: the rand documentation calls the
/// generator deterministic but not reproducible across platforms or
/// versions.
#[verifier::external_body]
fn next_u32(rng: &mut SmallRng) -> (draw: u32) {
    rng.next_u32()
}

/// Calls `SeedableRng::seed_from_u64` for `SmallRng`: a generator seeded
/// from `seed`. Nothing is stated of its state, which the rand documentation
/// does not promise to be the same across platforms or versions.
#[verifier::external_body]
fn small_rng_from_seed(seed: u64) -> (rng: SmallRng) {
    SmallRng::seed_from_u64(seed)
}

/// Calls `rand::random::<u64>()`: a value from the thread's generator,
/// of which nothing is stated.
#[verifier::external_body]
fn random_seed() -> (seed: u64) {
    rand::random()
}

/// One cell of the map.
#[derive(Copy, Clone, Debug, PartialEq, Eq, Structural)]
pub enum Tile {
    Air,
    Wall,
}

/// A square block of `CHUNK_SIZE` by `CHUNK_SIZE` tiles, indexed `tiles[x][y]`.
#[derive(PartialEq, Eq)]
pub struct Chunk {
    pub tiles: [[Tile; CHUNK_SIZE]; CHUNK_SIZE],
}

/// The draws below this bound turn a tile into a wall, about half of all
/// `u32` values.
pub const WALL_THRESHOLD: u32 = 2147483647;

/// The tile at `(x, y)` after one draw: a wall where the draw is below
/// `WALL_THRESHOLD`, otherwise the tile as it was.
pub open spec fn tile_after_draw(old: Tile, draw: u32) -> Tile {
    if draw < WALL_THRESHOLD {
        Tile::Wall
    } else {
        old
    }
}

impl Chunk {
    /// The tile at column `x`, row `y`.
    pub open spec fn tile(&self, x: int, y: int) -> Tile {
        self.tiles@[x]@[y]
    }

    /// A chunk of air only.
    pub fn new() -> (c: Chunk)
        ensures
            forall|x: int, y: int|
                0 <= x < CHUNK_SIZE && 0 <= y < CHUNK_SIZE ==> #[trigger] c.tile(x, y) == Tile::Air,
    {
        let row: [Tile; CHUNK_SIZE] = [Tile::Air; CHUNK_SIZE];
        Chunk { tiles: [row; CHUNK_SIZE] }
    }

    /// Turns into a wall each tile whose draw is below `WALL_THRESHOLD`,
    /// reading the draws column by column: tile `(x, y)` takes draw
    /// `x * CHUNK_SIZE + y`. The other tiles stay as they were.
    pub fn apply_draws(&mut self, draws: &Vec<u32>)
        requires
            draws.len() == CHUNK_SIZE * CHUNK_SIZE,
        ensures
            forall|x: int, y: int|
                0 <= x < CHUNK_SIZE && 0 <= y < CHUNK_SIZE ==> #[trigger] final(self).tile(x, y)
                    == tile_after_draw(old(self).tile(x, y), draws@[x * CHUNK_SIZE + y]),
    {
        let ghost start = self.tiles;
        for x in 0..CHUNK_SIZE
            invariant
                draws.len() == CHUNK_SIZE * CHUNK_SIZE,
                forall|i: int, j: int|
                    0 <= i < x && 0 <= j < CHUNK_SIZE ==> #[trigger] self.tiles@[i]@[j]
                        == tile_after_draw(start@[i]@[j], draws@[i * CHUNK_SIZE + j]),
                forall|i: int, j: int|
                    x <= i < CHUNK_SIZE && 0 <= j < CHUNK_SIZE ==> #[trigger] self.tiles@[i]@[j]
                        == start@[i]@[j],
        {
            for y in 0..CHUNK_SIZE
                invariant
                    0 <= x < CHUNK_SIZE,
                    draws.len() == CHUNK_SIZE * CHUNK_SIZE,
                    forall|i: int, j: int|
                        0 <= i < x && 0 <= j < CHUNK_SIZE ==> #[trigger] self.tiles@[i]@[j]
                            == tile_after_draw(start@[i]@[j], draws@[i * CHUNK_SIZE + j]),
                    forall|j: int|
                        0 <= j < y ==> #[trigger] self.tiles@[x as int]@[j]
                            == tile_after_draw(start@[x as int]@[j], draws@[x * CHUNK_SIZE + j]),
                    forall|i: int, j: int|
                        x < i < CHUNK_SIZE && 0 <= j < CHUNK_SIZE ==> #[trigger] self.tiles@[i]@[j]
                            == start@[i]@[j],
                    forall|j: int|
                        y <= j < CHUNK_SIZE ==> #[trigger] self.tiles@[x as int]@[j]
                            == start@[x as int]@[j],
            {
                if draws[x * CHUNK_SIZE + y] < WALL_THRESHOLD {
                    self.tiles[x][y] = Tile::Wall;
                }
            }
        }
    }

    /// Fills the chunk from the generator: one `next_u32` draw per tile,
    /// column by column, and a wall where the draw is below
    /// `WALL_THRESHOLD`. Whatever the generator gives, each tile ends as a
    /// wall or as it was.
    pub fn generate(&mut self, rng: &mut SmallRng)
        ensures
            forall|x: int, y: int|
                0 <= x < CHUNK_SIZE && 0 <= y < CHUNK_SIZE ==> {
                    ||| #[trigger] final(self).tile(x, y) == Tile::Wall
                    ||| final(self).tile(x, y) == old(self).tile(x, y)
                },
    {
        let mut draws: Vec<u32> = Vec::new();
        for i in 0..CHUNK_SIZE * CHUNK_SIZE
            invariant
                draws.len() == i,
        {
            draws.push(next_u32(rng));
        }
        self.apply_draws(&draws);
    }
}

/// The quotient `a / b` rounded toward zero, as Rust's `/` on integers
/// computes it, for `b > 0`.
pub open spec fn trunc_div(a: int, b: int) -> int {
    if a >= 0 {
        a / b
    } else {
        -((-a) / b)
    }
}

/// The key under which the chunk at chunk coordinates `(x, y)` is stored:
/// `x` and `y`, each shifted to start at zero, side by side in one `u64`.
pub open spec fn chunk_key(x: i32, y: i32) -> int {
    (x - i32::MIN) * 0x1_0000_0000 + (y - i32::MIN)
}

/// Two chunk coordinates share a key only if they are the same.
pub proof fn lemma_chunk_key_injective(x1: i32, y1: i32, x2: i32, y2: i32)
    ensures
        chunk_key(x1, y1) == chunk_key(x2, y2) ==> x1 == x2 && y1 == y2,
{
    let a1 = x1 - i32::MIN;
    let a2 = x2 - i32::MIN;
    let b1 = y1 - i32::MIN;
    let b2 = y2 - i32::MIN;
    if chunk_key(x1, y1) == chunk_key(x2, y2) {
        assert(a1 == a2 && b1 == b2) by (nonlinear_arith)
            requires
                a1 * 0x1_0000_0000 + b1 == a2 * 0x1_0000_0000 + b2,
                0 <= b1 < 0x1_0000_0000,
                0 <= b2 < 0x1_0000_0000,
                0 <= a1,
                0 <= a2,
        ;
    }
}

/// Computes `chunk_key(x, y)`.
pub(crate) fn chunk_key_of(x: i32, y: i32) -> (k: u64)
    ensures
        k == chunk_key(x, y),
{
    let a: u64 = (x as i64 - i32::MIN as i64) as u64;
    let b: u64 = (y as i64 - i32::MIN as i64) as u64;
    assert(a * 0x1_0000_0000 + b <= u64::MAX) by (nonlinear_arith)
        requires
            a < 0x1_0000_0000,
            b < 0x1_0000_0000,
    ;
    a * 0x1_0000_0000 + b
}

/// The endless world: the chunks generated so far, keyed by chunk
/// coordinates, and the generator, seeded from `seed`, that fills each new
/// chunk.
pub struct WorldMap {
    pub seed: u64,
    chunks: HashMap<u64, Chunk>,
    rng: SmallRng,
}

impl WorldMap {
    /// The seed the map's generator started from.
    pub closed spec fn spec_seed(&self) -> u64 {
        self.seed
    }

    /// The chunks generated so far, by chunk coordinates.
    pub closed spec fn chunks(&self) -> Map<(i32, i32), Chunk> {
        Map::new(
            |p: (i32, i32)| self.chunks@.contains_key(chunk_key(p.0, p.1) as u64),
            |p: (i32, i32)| self.chunks@[chunk_key(p.0, p.1) as u64],
        )
    }

    /// A map with no chunk yet, whose generator is seeded from `seed`.
    pub fn new(seed: u64) -> (m: WorldMap)
        ensures
            m.spec_seed() == seed,
            m.chunks() == Map::<(i32, i32), Chunk>::empty(),
    {
        let m = WorldMap { seed, chunks: HashMap::new(), rng: small_rng_from_seed(seed) };
        assert(m.chunks() =~= Map::<(i32, i32), Chunk>::empty());
        m
    }

    /// A map with no chunk yet, from a seed drawn from the thread's
    /// generator.
    pub fn default() -> (m: WorldMap)
        ensures
            m.chunks() == Map::<(i32, i32), Chunk>::empty(),
    {
        let seed = random_seed();
        Self::new(seed)
    }

    /// The chunk at chunk coordinates `(x, y)`, if it was generated.
    pub fn get_chunk(&self, x: i32, y: i32) -> (c: Option<&Chunk>)
        ensures
            match c {
                Some(c) => self.chunks().contains_key((x, y)) && *c == self.chunks()[(x, y)],
                None => !self.chunks().contains_key((x, y)),
            },
    {
        broadcast use vstd::std_specs::hash::group_hash_axioms;
        let k = chunk_key_of(x, y);
        self.chunks.get(&k)
    }

    /// The chunk at chunk coordinates `(x, y)`, generated first if there is
    /// none yet: a chunk of air that the map's generator then fills (see
    /// `Chunk::generate`). Where the chunk exists, nothing changes, the
    /// generator included.
    pub fn get_chunk_or_create(&mut self, x: i32, y: i32) -> (c: &Chunk)
        ensures
            final(self).chunks() == old(self).chunks().insert((x, y), *c),
            final(self).spec_seed() == old(self).spec_seed(),
            old(self).chunks().contains_key((x, y)) ==> *final(self) == *old(self),
    {
        broadcast use vstd::std_specs::hash::group_hash_axioms;
        let k = chunk_key_of(x, y);
        let ghost before = self.chunks();
        if !self.chunks.contains_key(&k) {
            let mut chunk = Chunk::new();
            chunk.generate(&mut self.rng);
            self.chunks.insert(k, chunk);
            proof {
                assert forall|p: (i32, i32)| p != (x, y) implies chunk_key(p.0, p.1) != chunk_key(x, y) by {
                    lemma_chunk_key_injective(p.0, p.1, x, y);
                }
                assert(self.chunks() =~= before.insert((x, y), chunk));
            }
        } else {
            assert(before.insert((x, y), before[(x, y)]) =~= before);
        }
        let c = self.chunks.get(&k);
        c.unwrap()
    }

    /// The chunk that holds the tile at `(x, y)`, if it was generated: the
    /// chunk at `(x / CHUNK_SIZE, y / CHUNK_SIZE)`, where `/` is Rust's
    /// division of `i32`, rounded toward zero.
    pub fn get_chunk_from_point(&self, x: i32, y: i32) -> (c: Option<&Chunk>)
        ensures
            ({
                let p = (trunc_div(x as int, CHUNK_SIZE as int) as i32, trunc_div(
                    y as int,
                    CHUNK_SIZE as int,
                ) as i32);
                match c {
                    Some(c) => self.chunks().contains_key(p) && *c == self.chunks()[p],
                    None => !self.chunks().contains_key(p),
                }
            }),
    {
        self.get_chunk(x / CHUNK_SIZE_I32, y / CHUNK_SIZE_I32)
    }
}

} // verus!
