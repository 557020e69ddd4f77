use ascii_game::game::map::{Chunk as SoloChunk, WorldMap as SoloMap, CHUNK_SIZE as SOLO_CHUNK_SIZE};
use ascii_game::integer::{div_ceil, div_floor};
use ascii_game::shared::game::map::{Chunk, Tile, WorldMap, CHUNK_SIZE, CHUNK_SIZE_I32, WALL_THRESHOLD};
use ascii_game::util::rect::Rect;
use rand::rngs::SmallRng;
use rand::SeedableRng;

fn count_walls(c: &Chunk) -> usize {
    let mut n = 0;
    for x in 0..CHUNK_SIZE {
        for y in 0..CHUNK_SIZE {
            if c.tiles[x][y] == Tile::Wall {
                n += 1;
            }
        }
    }
    n
}

#[test]
fn rect_area_and_edges() {
    let r = Rect::new(1, 2, 3, 4);
    assert_eq!(r.area(), 12);
    assert_eq!(r.max_x(), 4);
    assert_eq!(r.max_y(), 6);
    let n = Rect::new(-5, -5, 2, 3);
    assert_eq!(n.area(), 6);
    assert_eq!(n.max_x(), -3);
    assert_eq!(n.max_y(), -2);
}

#[test]
fn floored_and_ceiled_division() {
    assert_eq!(div_floor(7, 2), 3);
    assert_eq!(div_floor(-7, 2), -4);
    assert_eq!(div_floor(7, -2), -4);
    assert_eq!(div_floor(-7, -2), 3);
    assert_eq!(div_floor(-1, 32), -1);
    assert_eq!(div_ceil(7, 2), 4);
    assert_eq!(div_ceil(-7, 2), -3);
    assert_eq!(div_ceil(0, 32), 0);
    assert_eq!(div_ceil(1, 32), 1);
    assert_eq!(div_ceil(64, 32), 2);
}

#[test]
fn new_chunk_is_air() {
    let c = Chunk::new();
    assert_eq!(count_walls(&c), 0);
    let s = SoloChunk::new();
    for x in 0..SOLO_CHUNK_SIZE {
        for y in 0..SOLO_CHUNK_SIZE {
            assert!(s.tiles[x][y] == Tile::Air);
        }
    }
}

#[test]
fn draws_below_threshold_make_walls() {
    let mut c = Chunk::new();
    let mut draws = vec![u32::MAX; CHUNK_SIZE * CHUNK_SIZE];
    draws[0] = 0;
    draws[1] = WALL_THRESHOLD - 1;
    draws[2] = WALL_THRESHOLD;
    draws[CHUNK_SIZE + 3] = 5;
    c.apply_draws(&draws);
    assert!(c.tiles[0][0] == Tile::Wall);
    assert!(c.tiles[0][1] == Tile::Wall);
    assert!(c.tiles[0][2] == Tile::Air);
    assert!(c.tiles[1][3] == Tile::Wall);
    assert_eq!(count_walls(&c), 3);
}

#[test]
fn draws_never_clear_walls() {
    let mut c = Chunk::new();
    c.apply_draws(&vec![0; CHUNK_SIZE * CHUNK_SIZE]);
    assert_eq!(count_walls(&c), CHUNK_SIZE * CHUNK_SIZE);
    c.apply_draws(&vec![u32::MAX; CHUNK_SIZE * CHUNK_SIZE]);
    assert_eq!(count_walls(&c), CHUNK_SIZE * CHUNK_SIZE);
}

#[test]
fn solo_flips_make_walls() {
    let mut c = SoloChunk::new();
    let mut flips = vec![false; SOLO_CHUNK_SIZE * SOLO_CHUNK_SIZE];
    flips[SOLO_CHUNK_SIZE * 2 + 7] = true;
    c.apply_flips(&flips);
    assert!(c.tiles[2][7] == Tile::Wall);
    assert!(c.tiles[7][2] == Tile::Air);
}

#[test]
fn new_map_has_no_chunk() {
    let m = WorldMap::new(7);
    assert_eq!(m.seed, 7);
    assert!(m.get_chunk(0, 0).is_none());
    assert!(m.get_chunk(-3, 9).is_none());
    let d = WorldMap::default();
    assert!(d.get_chunk(0, 0).is_none());
}

#[test]
fn created_chunk_is_found_again() {
    let mut m = WorldMap::new(1234);
    let first = m.get_chunk_or_create(2, -3).tiles;
    let found = m.get_chunk(2, -3).unwrap().tiles;
    assert!(first == found);
    let again = m.get_chunk_or_create(2, -3).tiles;
    assert!(first == again);
    assert!(m.get_chunk(-3, 2).is_none());
    assert!(m.get_chunk(2, 3).is_none());
}

#[test]
fn generated_chunk_mixes_walls_and_air() {
    let mut m = WorldMap::new(99);
    let walls = count_walls(m.get_chunk_or_create(0, 0));
    assert!(walls > 0);
    assert!(walls < CHUNK_SIZE * CHUNK_SIZE);
}

#[test]
fn same_seed_same_world() {
    let mut a = WorldMap::new(2021);
    let mut b = WorldMap::new(2021);
    let ta = a.get_chunk_or_create(0, 0).tiles;
    let tb = b.get_chunk_or_create(0, 0).tiles;
    assert!(ta == tb);
    let ta = a.get_chunk_or_create(1, 0).tiles;
    let tb = b.get_chunk_or_create(1, 0).tiles;
    assert!(ta == tb);
}

#[test]
fn chunks_far_apart_keep_apart() {
    let mut m = WorldMap::new(5);
    let low = m.get_chunk_or_create(i32::MIN, i32::MAX).tiles;
    m.get_chunk_or_create(i32::MAX, i32::MIN);
    assert!(m.get_chunk(i32::MIN, i32::MAX).unwrap().tiles == low);
    assert!(m.get_chunk(i32::MAX, i32::MAX).is_none());
}

#[test]
fn chunk_from_point_rounds_toward_zero() {
    let mut m = WorldMap::new(3);
    let origin = m.get_chunk_or_create(0, 0).tiles;
    assert!(m.get_chunk_from_point(0, 0).unwrap().tiles == origin);
    assert!(m.get_chunk_from_point(CHUNK_SIZE_I32 - 1, CHUNK_SIZE_I32 - 1).unwrap().tiles == origin);
    assert!(m.get_chunk_from_point(-1, -(CHUNK_SIZE_I32 - 1)).unwrap().tiles == origin);
    assert!(m.get_chunk_from_point(CHUNK_SIZE_I32, 0).is_none());
    assert!(m.get_chunk_from_point(-CHUNK_SIZE_I32, 0).is_none());
}

#[test]
fn solo_map_creates_and_finds() {
    let mut m = SoloMap::new();
    assert!(m.get_chunk(0, 0).is_none());
    let t = m.get_chunk_or_create(1, 1).tiles;
    assert!(m.get_chunk(1, 1).unwrap().tiles == t);
    assert!(m.get_chunk_from_point(50, 99).unwrap().tiles == t);
    assert!(m.get_chunk_from_point(49, 99).is_none());
    assert!(m.get_chunk_or_create(1, 1).tiles == t);
}

#[test]
fn different_seeds_different_worlds() {
    let mut a = WorldMap::new(1);
    let mut b = WorldMap::new(2);
    let ta = a.get_chunk_or_create(0, 0).tiles;
    let tb = b.get_chunk_or_create(0, 0).tiles;
    assert!(ta != tb);
}

#[test]
fn solo_generated_chunk_mixes_walls_and_air() {
    let mut m = SoloMap::new();
    let c = m.get_chunk_or_create(0, 0);
    let mut walls = 0;
    for x in 0..SOLO_CHUNK_SIZE {
        for y in 0..SOLO_CHUNK_SIZE {
            if c.tiles[x][y] == Tile::Wall {
                walls += 1;
            }
        }
    }
    assert!(walls > 0);
    assert!(walls < SOLO_CHUNK_SIZE * SOLO_CHUNK_SIZE);
}

#[test]
fn generate_keeps_existing_walls() {
    let mut rng = SmallRng::seed_from_u64(11);
    let mut c = Chunk::new();
    c.apply_draws(&vec![0; CHUNK_SIZE * CHUNK_SIZE]);
    c.generate(&mut rng);
    assert_eq!(count_walls(&c), CHUNK_SIZE * CHUNK_SIZE);
    let mut fresh = Chunk::new();
    fresh.generate(&mut rng);
    let walls = count_walls(&fresh);
    assert!(walls > 0 && walls < CHUNK_SIZE * CHUNK_SIZE);
}

#[test]
fn solo_generate_keeps_existing_walls() {
    let mut c = SoloChunk::new();
    c.apply_flips(&vec![true; SOLO_CHUNK_SIZE * SOLO_CHUNK_SIZE]);
    c.generate();
    for x in 0..SOLO_CHUNK_SIZE {
        for y in 0..SOLO_CHUNK_SIZE {
            assert!(c.tiles[x][y] == Tile::Wall);
        }
    }
}
