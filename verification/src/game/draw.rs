//! How the stand-alone game draws the chunks around the player.

use vstd::prelude::*;
use crate::draw::{
    grid_ops, grid_view, lemma_flatten_new_empty, lemma_flatten_new_step, lemma_new_agree,
    ops_view, push_grid_ops, DrawOp, DrawView,
};
use crate::game::map::{Chunk, WorldMap, CHUNK_SIZE as SOLO_CHUNK, CHUNK_SIZE_I32 as SOLO_CHUNK_I32};

verus! {

/// The steps that draw chunk `c`, which stands at chunk coordinates
/// `(i, j)`, with the camera at `(cx, cy)`: its tiles column by column,
/// each at its map position less the camera's.
pub open spec fn chunk_ops(c: Chunk, i: int, j: int, cx: int, cy: int) -> Seq<DrawView> {
    grid_ops(grid_view(c.tiles), SOLO_CHUNK as nat, i * SOLO_CHUNK - cx, j * SOLO_CHUNK - cy)
}

/// Every screen position of chunk column `i` fits in an `i32`, with the
/// camera at column `cx`.
pub open spec fn chunk_fits(i: int, cx: int) -> bool {
    &&& i32::MIN <= i * SOLO_CHUNK
    &&& i * SOLO_CHUNK + SOLO_CHUNK - 1 <= i32::MAX
    &&& i32::MIN <= i * SOLO_CHUNK - cx
    &&& i * SOLO_CHUNK + SOLO_CHUNK - 1 - cx <= i32::MAX
}

/// Appends the steps that draw `chunk` (see `chunk_ops`).
pub fn push_chunk_ops(ops: &mut Vec<DrawOp>, chunk: &Chunk, i: i32, j: i32, cx: i32, cy: i32)
    requires
        chunk_fits(i as int, cx as int),
        chunk_fits(j as int, cy as int),
    ensures
        ops_view(final(ops)@) == ops_view(old(ops)@) + chunk_ops(*chunk, i as int, j as int, cx as int, cy as int),
{
    let ox = i * SOLO_CHUNK_I32 - cx;
    let oy = j * SOLO_CHUNK_I32 - cy;
    push_grid_ops(ops, &chunk.tiles, ox, oy);
}

/// The steps that draw the chunks in column `i`, rows `sy` up to but not
/// including `sy + ny`, top to bottom, with the camera at `(cx, cy)`.
pub open spec fn map_column_ops(
    chunks: Map<(i32, i32), Chunk>,
    i: int,
    sy: int,
    ny: nat,
    cx: int,
    cy: int,
) -> Seq<DrawView> {
    Seq::new(ny, |b: int| chunk_ops(chunks[(i as i32, (sy + b) as i32)], i, sy + b, cx, cy)).flatten()
}

/// The steps that draw the chunks in columns `sx` up to but not including
/// `sx + nx` and rows `sy` up to but not including `sy + ny`, column by
/// column, with the camera at `(cx, cy)`.
pub open spec fn map_ops(
    chunks: Map<(i32, i32), Chunk>,
    sx: int,
    sy: int,
    nx: nat,
    ny: nat,
    cx: int,
    cy: int,
) -> Seq<DrawView> {
    Seq::new(nx, |a: int| map_column_ops(chunks, sx + a, sy, ny, cx, cy)).flatten()
}

/// `after` holds every chunk of `before`, unchanged.
pub open spec fn extends(after: Map<(i32, i32), Chunk>, before: Map<(i32, i32), Chunk>) -> bool {
    forall|p: (i32, i32)| #[trigger]
        before.contains_key(p) ==> after.contains_key(p) && after[p] == before[p]
}

/// `m` holds every chunk in columns `sx` up to `sx + nx` and rows `sy` up
/// to `sy + ny`.
pub open spec fn covers(m: Map<(i32, i32), Chunk>, sx: int, sy: int, nx: int, ny: int) -> bool {
    forall|a: int, b: int|
        0 <= a < nx && 0 <= b < ny ==> #[trigger] m.contains_key(((sx + a) as i32, (sy + b) as i32))
}

/// Every chunk of `after` is in `before` or in columns `sx` up to `sx + nx`
/// and rows `sy` up to `sy + ny`.
pub open spec fn within(
    after: Map<(i32, i32), Chunk>,
    before: Map<(i32, i32), Chunk>,
    sx: int,
    sy: int,
    nx: int,
    ny: int,
) -> bool {
    forall|p: (i32, i32)| #[trigger]
        after.contains_key(p) ==> before.contains_key(p) || (sx <= p.0 < sx + nx && sy <= p.1 < sy
            + ny)
}

/// Drawing a column reads only chunks that a larger map keeps.
pub proof fn lemma_column_stable(
    m0: Map<(i32, i32), Chunk>,
    m1: Map<(i32, i32), Chunk>,
    i: int,
    sy: int,
    ny: nat,
    cx: int,
    cy: int,
)
    requires
        extends(m1, m0),
        forall|b: int| 0 <= b < ny ==> #[trigger] m0.contains_key((i as i32, (sy + b) as i32)),
    ensures
        map_column_ops(m0, i, sy, ny, cx, cy) == map_column_ops(m1, i, sy, ny, cx, cy),
{
    let f = |b: int| chunk_ops(m0[(i as i32, (sy + b) as i32)], i, sy + b, cx, cy);
    let g = |b: int| chunk_ops(m1[(i as i32, (sy + b) as i32)], i, sy + b, cx, cy);
    assert forall|b: int| 0 <= b < ny implies #[trigger] f(b) == g(b) by {
        assert(m0.contains_key((i as i32, (sy + b) as i32)));
    }
    lemma_new_agree(f, g, ny);
}

/// Drawing columns reads only chunks that a larger map keeps.
pub proof fn lemma_columns_stable(
    m0: Map<(i32, i32), Chunk>,
    m1: Map<(i32, i32), Chunk>,
    sx: int,
    sy: int,
    nx: nat,
    ny: nat,
    cx: int,
    cy: int,
)
    requires
        extends(m1, m0),
        covers(m0, sx, sy, nx as int, ny as int),
    ensures
        Seq::new(nx, |a: int| map_column_ops(m0, sx + a, sy, ny, cx, cy)) == Seq::new(
            nx,
            |a: int| map_column_ops(m1, sx + a, sy, ny, cx, cy),
        ),
{
    let f = |a: int| map_column_ops(m0, sx + a, sy, ny, cx, cy);
    let g = |a: int| map_column_ops(m1, sx + a, sy, ny, cx, cy);
    assert forall|a: int| 0 <= a < nx implies #[trigger] f(a) == g(a) by {
        assert forall|b: int| 0 <= b < ny implies #[trigger] m0.contains_key(
            ((sx + a) as i32, (sy + b) as i32),
        ) by {
            assert(m0.contains_key(((sx + a) as i32, (sy + b) as i32)));
        }
        lemma_column_stable(m0, m1, sx + a, sy, ny, cx, cy);
    }
    lemma_new_agree(f, g, nx);
}

/// Generates the chunks in columns `sx` up to but not including `ex` and
/// rows `sy` up to but not including `ey` that `map` lacks, and appends the
/// steps that draw them all (see `map_ops`).
pub fn push_map_ops(ops: &mut Vec<DrawOp>, map: &mut WorldMap, sx: i32, ex: i32, sy: i32, ey: i32, cx: i32, cy: i32)
    requires
        sx < ex ==> chunk_fits(sx as int, cx as int) && chunk_fits(ex - 1, cx as int),
        sy < ey ==> chunk_fits(sy as int, cy as int) && chunk_fits(ey - 1, cy as int),
    ensures
        ({
            let nx = if sx < ex { (ex - sx) as nat } else { 0 };
            let ny = if sy < ey { (ey - sy) as nat } else { 0 };
            &&& ops_view(final(ops)@) == ops_view(old(ops)@) + map_ops(final(map).chunks(), sx as int, sy as int, nx, ny, cx as int, cy as int)
            &&& extends(final(map).chunks(), old(map).chunks())
            &&& covers(final(map).chunks(), sx as int, sy as int, nx as int, ny as int)
            &&& within(final(map).chunks(), old(map).chunks(), sx as int, sy as int, nx as int, ny as int)
        }),
{
    let ghost base = ops_view(ops@);
    let ghost m_start = map.chunks();
    let ghost ny: nat = if sy < ey { (ey - sy) as nat } else { 0 };
    let mut i = sx;
    proof {
        lemma_flatten_new_empty(|a: int| map_column_ops(map.chunks(), sx + a, sy as int, ny, cx as int, cy as int));
    }
    while i < ex
        invariant
            sx <= i,
            sx < ex ==> i <= ex,
            sx >= ex ==> i == sx,
            sx < ex ==> chunk_fits(sx as int, cx as int) && chunk_fits(ex - 1, cx as int),
            sy < ey ==> chunk_fits(sy as int, cy as int) && chunk_fits(ey - 1, cy as int),
            ny == if sy < ey { (ey - sy) as nat } else { 0 },
            ops_view(ops@) == base + Seq::new((i - sx) as nat, |a: int| map_column_ops(map.chunks(), sx + a, sy as int, ny, cx as int, cy as int)).flatten(),
            extends(map.chunks(), m_start),
            covers(map.chunks(), sx as int, sy as int, i - sx, ny as int),
            within(map.chunks(), m_start, sx as int, sy as int, i - sx, ny as int),
        decreases ex - i,
    {
        let ghost m_col = map.chunks();
        let ghost mid = ops_view(ops@);
        let mut j = sy;
        proof {
            lemma_flatten_new_empty(|b: int| chunk_ops(map.chunks()[(i, (sy + b) as i32)], i as int, sy + b, cx as int, cy as int));
        }
        while j < ey
            invariant
                sx <= i < ex,
                sy <= j,
                sy < ey ==> j <= ey,
                sy >= ey ==> j == sy,
                chunk_fits(i as int, cx as int),
                sy < ey ==> chunk_fits(sy as int, cy as int) && chunk_fits(ey - 1, cy as int),
                ny == if sy < ey { (ey - sy) as nat } else { 0 },
                ops_view(ops@) == mid + Seq::new((j - sy) as nat, |b: int| chunk_ops(map.chunks()[(i, (sy + b) as i32)], i as int, sy + b, cx as int, cy as int)).flatten(),
                extends(map.chunks(), m_col),
                extends(m_col, m_start),
                forall|b: int| 0 <= b < j - sy ==> #[trigger] map.chunks().contains_key((i, (sy + b) as i32)),
                forall|p: (i32, i32)| #[trigger] map.chunks().contains_key(p) ==> m_col.contains_key(p) || (p.0 == i && sy <= p.1 < j),
                decreases ey - j,
        {
            let ghost m_before = map.chunks();
            let ghost f_before = |b: int| chunk_ops(m_before[(i, (sy + b) as i32)], i as int, sy + b, cx as int, cy as int);
            let chunk = map.get_chunk_or_create(i, j);
            let ghost cv = *chunk;
            push_chunk_ops(ops, chunk, i, j, cx, cy);
            let ghost m_after = map.chunks();
            assert(m_after == m_before.insert((i, j), cv));
            assert(extends(m_after, m_before));
            let ghost f_after = |b: int| chunk_ops(m_after[(i, (sy + b) as i32)], i as int, sy + b, cx as int, cy as int);
            proof {
                assert forall|b: int| 0 <= b < j - sy implies #[trigger] f_before(b) == f_after(b) by {
                    assert(m_before.contains_key((i, (sy + b) as i32)));
                }
                lemma_new_agree(f_before, f_after, (j - sy) as nat);
                lemma_flatten_new_step(f_after, (j - sy) as nat);
                assert((sy + (j - sy)) as i32 == j);
                assert(f_after((j - sy) as int) == chunk_ops(cv, i as int, j as int, cx as int, cy as int));
            }
            j = j + 1;
        }
        let ghost m_new = map.chunks();
        proof {
            assert(Seq::new(ny, |b: int| chunk_ops(m_new[(i, (sy + b) as i32)], i as int, sy + b, cx as int, cy as int)).flatten() == map_column_ops(m_new, i as int, sy as int, ny, cx as int, cy as int));
            lemma_columns_stable(m_col, m_new, sx as int, sy as int, (i - sx) as nat, ny, cx as int, cy as int);
            let colf = |a: int| map_column_ops(m_new, sx + a, sy as int, ny, cx as int, cy as int);
            lemma_flatten_new_step(colf, (i - sx) as nat);
            assert(colf((i - sx) as int) == map_column_ops(m_new, i as int, sy as int, ny, cx as int, cy as int));
            assert forall|a: int, b: int| 0 <= a < i + 1 - sx && 0 <= b < ny implies #[trigger] m_new.contains_key(((sx + a) as i32, (sy + b) as i32)) by {
                if a < i - sx {
                    assert(m_col.contains_key(((sx + a) as i32, (sy + b) as i32)));
                } else {
                    assert((sx + a) as i32 == i);
                    assert(m_new.contains_key((i, (sy + b) as i32)));
                }
            }
        }
        i = i + 1;
    }
}

/// Tells whether `chunk_fits(i, cx)` holds.
pub fn check_chunk_fits(i: i64, cx: i64) -> (ok: bool)
    requires
        i32::MIN <= i <= i32::MAX + 1,
        i32::MIN <= cx <= i32::MAX,
    ensures
        ok == chunk_fits(i as int, cx as int),
{
    let lo = i * 50;
    let hi = i * 50 + 49;
    i32::MIN as i64 <= lo && hi <= i32::MAX as i64 && i32::MIN as i64 <= lo - cx && hi - cx
        <= i32::MAX as i64
}

} // verus!
