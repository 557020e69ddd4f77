//! How the client draws the map, the other actors and the chat.

use vstd::prelude::*;
use crate::draw::{
    grid_ops, grid_view, lemma_flatten_new_empty, lemma_flatten_new_step, lemma_new_agree,
    ops_view, push_grid_ops, push_op, DrawOp, DrawView,
};
use crate::shared::game::map::{Chunk, WorldMap, CHUNK_SIZE, CHUNK_SIZE_I32};
use crate::shared::actors::PointActor;
use crate::integer::{ceil_div, div_ceil};
use vstd::utf8::encode_utf8;

verus! {

/// The steps that draw chunk `c`, which stands at chunk coordinates
/// `(i, j)`, with the camera at `(cx, cy)`: its tiles column by column,
/// each at its map position less the camera's.
pub open spec fn chunk_ops(c: Chunk, i: int, j: int, cx: int, cy: int) -> Seq<DrawView> {
    grid_ops(grid_view(c.tiles), CHUNK_SIZE as nat, i * CHUNK_SIZE - cx, j * CHUNK_SIZE - cy)
}

/// Every screen position of chunk column `i` fits in an `i32`, with the
/// camera at column `cx`.
pub open spec fn chunk_fits(i: int, cx: int) -> bool {
    &&& i32::MIN <= i * CHUNK_SIZE
    &&& i * CHUNK_SIZE + CHUNK_SIZE - 1 <= i32::MAX
    &&& i32::MIN <= i * CHUNK_SIZE - cx
    &&& i * CHUNK_SIZE + CHUNK_SIZE - 1 - cx <= i32::MAX
}

/// Appends the steps that draw `chunk` (see `chunk_ops`).
pub fn push_chunk_ops(ops: &mut Vec<DrawOp>, chunk: &Chunk, i: i32, j: i32, cx: i32, cy: i32)
    requires
        chunk_fits(i as int, cx as int),
        chunk_fits(j as int, cy as int),
    ensures
        ops_view(final(ops)@) == ops_view(old(ops)@) + chunk_ops(*chunk, i as int, j as int, cx as int, cy as int),
{
    let ox = i * CHUNK_SIZE_I32 - cx;
    let oy = j * CHUNK_SIZE_I32 - cy;
    push_grid_ops(ops, &chunk.tiles, ox, oy);
}

/// The steps that draw the chunks in column `i`, rows `sy` up to but not
/// including `sy + ny`, top to bottom, with the camera at `(cx, cy)`.
pub open spec fn map_column_ops(
    chunks: Map<(i32, i32), Chunk>,
    i: int,
    sy: int,
    ny: nat,
    cx: int,
    cy: int,
) -> Seq<DrawView> {
    Seq::new(ny, |b: int| chunk_ops(chunks[(i as i32, (sy + b) as i32)], i, sy + b, cx, cy)).flatten()
}

/// The steps that draw the chunks in columns `sx` up to but not including
/// `sx + nx` and rows `sy` up to but not including `sy + ny`, column by
/// column, with the camera at `(cx, cy)`.
pub open spec fn map_ops(
    chunks: Map<(i32, i32), Chunk>,
    sx: int,
    sy: int,
    nx: nat,
    ny: nat,
    cx: int,
    cy: int,
) -> Seq<DrawView> {
    Seq::new(nx, |a: int| map_column_ops(chunks, sx + a, sy, ny, cx, cy)).flatten()
}

/// `after` holds every chunk of `before`, unchanged.
pub open spec fn extends(after: Map<(i32, i32), Chunk>, before: Map<(i32, i32), Chunk>) -> bool {
    forall|p: (i32, i32)| #[trigger]
        before.contains_key(p) ==> after.contains_key(p) && after[p] == before[p]
}

/// `m` holds every chunk in columns `sx` up to `sx + nx` and rows `sy` up
/// to `sy + ny`.
pub open spec fn covers(m: Map<(i32, i32), Chunk>, sx: int, sy: int, nx: int, ny: int) -> bool {
    forall|a: int, b: int|
        0 <= a < nx && 0 <= b < ny ==> #[trigger] m.contains_key(((sx + a) as i32, (sy + b) as i32))
}

/// Every chunk of `after` is in `before` or in columns `sx` up to `sx + nx`
/// and rows `sy` up to `sy + ny`.
pub open spec fn within(
    after: Map<(i32, i32), Chunk>,
    before: Map<(i32, i32), Chunk>,
    sx: int,
    sy: int,
    nx: int,
    ny: int,
) -> bool {
    forall|p: (i32, i32)| #[trigger]
        after.contains_key(p) ==> before.contains_key(p) || (sx <= p.0 < sx + nx && sy <= p.1 < sy
            + ny)
}

/// Drawing a column reads only chunks that a larger map keeps.
pub proof fn lemma_column_stable(
    m0: Map<(i32, i32), Chunk>,
    m1: Map<(i32, i32), Chunk>,
    i: int,
    sy: int,
    ny: nat,
    cx: int,
    cy: int,
)
    requires
        extends(m1, m0),
        forall|b: int| 0 <= b < ny ==> #[trigger] m0.contains_key((i as i32, (sy + b) as i32)),
    ensures
        map_column_ops(m0, i, sy, ny, cx, cy) == map_column_ops(m1, i, sy, ny, cx, cy),
{
    let f = |b: int| chunk_ops(m0[(i as i32, (sy + b) as i32)], i, sy + b, cx, cy);
    let g = |b: int| chunk_ops(m1[(i as i32, (sy + b) as i32)], i, sy + b, cx, cy);
    assert forall|b: int| 0 <= b < ny implies #[trigger] f(b) == g(b) by {
        assert(m0.contains_key((i as i32, (sy + b) as i32)));
    }
    lemma_new_agree(f, g, ny);
}

/// Drawing columns reads only chunks that a larger map keeps.
pub proof fn lemma_columns_stable(
    m0: Map<(i32, i32), Chunk>,
    m1: Map<(i32, i32), Chunk>,
    sx: int,
    sy: int,
    nx: nat,
    ny: nat,
    cx: int,
    cy: int,
)
    requires
        extends(m1, m0),
        covers(m0, sx, sy, nx as int, ny as int),
    ensures
        Seq::new(nx, |a: int| map_column_ops(m0, sx + a, sy, ny, cx, cy)) == Seq::new(
            nx,
            |a: int| map_column_ops(m1, sx + a, sy, ny, cx, cy),
        ),
{
    let f = |a: int| map_column_ops(m0, sx + a, sy, ny, cx, cy);
    let g = |a: int| map_column_ops(m1, sx + a, sy, ny, cx, cy);
    assert forall|a: int| 0 <= a < nx implies #[trigger] f(a) == g(a) by {
        assert forall|b: int| 0 <= b < ny implies #[trigger] m0.contains_key(
            ((sx + a) as i32, (sy + b) as i32),
        ) by {
            assert(m0.contains_key(((sx + a) as i32, (sy + b) as i32)));
        }
        lemma_column_stable(m0, m1, sx + a, sy, ny, cx, cy);
    }
    lemma_new_agree(f, g, nx);
}

/// Generates the chunks in columns `sx` up to but not including `ex` and
/// rows `sy` up to but not including `ey` that `map` lacks, and appends the
/// steps that draw them all (see `map_ops`).
pub fn push_map_ops(ops: &mut Vec<DrawOp>, map: &mut WorldMap, sx: i32, ex: i32, sy: i32, ey: i32, cx: i32, cy: i32)
    requires
        sx < ex ==> chunk_fits(sx as int, cx as int) && chunk_fits(ex - 1, cx as int),
        sy < ey ==> chunk_fits(sy as int, cy as int) && chunk_fits(ey - 1, cy as int),
    ensures
        ({
            let nx = if sx < ex { (ex - sx) as nat } else { 0 };
            let ny = if sy < ey { (ey - sy) as nat } else { 0 };
            &&& ops_view(final(ops)@) == ops_view(old(ops)@) + map_ops(final(map).chunks(), sx as int, sy as int, nx, ny, cx as int, cy as int)
            &&& extends(final(map).chunks(), old(map).chunks())
            &&& covers(final(map).chunks(), sx as int, sy as int, nx as int, ny as int)
            &&& within(final(map).chunks(), old(map).chunks(), sx as int, sy as int, nx as int, ny as int)
        }),
        final(map).spec_seed() == old(map).spec_seed(),
{
    let ghost base = ops_view(ops@);
    let ghost m_start = map.chunks();
    let ghost ny: nat = if sy < ey { (ey - sy) as nat } else { 0 };
    let mut i = sx;
    proof {
        lemma_flatten_new_empty(|a: int| map_column_ops(map.chunks(), sx + a, sy as int, ny, cx as int, cy as int));
    }
    while i < ex
        invariant
            sx <= i,
            sx < ex ==> i <= ex,
            sx >= ex ==> i == sx,
            sx < ex ==> chunk_fits(sx as int, cx as int) && chunk_fits(ex - 1, cx as int),
            sy < ey ==> chunk_fits(sy as int, cy as int) && chunk_fits(ey - 1, cy as int),
            ny == if sy < ey { (ey - sy) as nat } else { 0 },
            ops_view(ops@) == base + Seq::new((i - sx) as nat, |a: int| map_column_ops(map.chunks(), sx + a, sy as int, ny, cx as int, cy as int)).flatten(),
            extends(map.chunks(), m_start),
            covers(map.chunks(), sx as int, sy as int, i - sx, ny as int),
            within(map.chunks(), m_start, sx as int, sy as int, i - sx, ny as int),
            map.spec_seed() == old(map).spec_seed(),
        decreases ex - i,
    {
        let ghost m_col = map.chunks();
        let ghost mid = ops_view(ops@);
        let mut j = sy;
        proof {
            lemma_flatten_new_empty(|b: int| chunk_ops(map.chunks()[(i, (sy + b) as i32)], i as int, sy + b, cx as int, cy as int));
        }
        while j < ey
            invariant
                sx <= i < ex,
                sy <= j,
                sy < ey ==> j <= ey,
                sy >= ey ==> j == sy,
                chunk_fits(i as int, cx as int),
                sy < ey ==> chunk_fits(sy as int, cy as int) && chunk_fits(ey - 1, cy as int),
                ny == if sy < ey { (ey - sy) as nat } else { 0 },
                ops_view(ops@) == mid + Seq::new((j - sy) as nat, |b: int| chunk_ops(map.chunks()[(i, (sy + b) as i32)], i as int, sy + b, cx as int, cy as int)).flatten(),
                extends(map.chunks(), m_col),
                extends(m_col, m_start),
                forall|b: int| 0 <= b < j - sy ==> #[trigger] map.chunks().contains_key((i, (sy + b) as i32)),
                forall|p: (i32, i32)| #[trigger] map.chunks().contains_key(p) ==> m_col.contains_key(p) || (p.0 == i && sy <= p.1 < j),
                map.spec_seed() == old(map).spec_seed(),
            decreases ey - j,
        {
            let ghost m_before = map.chunks();
            let ghost f_before = |b: int| chunk_ops(m_before[(i, (sy + b) as i32)], i as int, sy + b, cx as int, cy as int);
            let chunk = map.get_chunk_or_create(i, j);
            let ghost cv = *chunk;
            push_chunk_ops(ops, chunk, i, j, cx, cy);
            let ghost m_after = map.chunks();
            assert(m_after == m_before.insert((i, j), cv));
            assert(extends(m_after, m_before));
            let ghost f_after = |b: int| chunk_ops(m_after[(i, (sy + b) as i32)], i as int, sy + b, cx as int, cy as int);
            proof {
                assert forall|b: int| 0 <= b < j - sy implies #[trigger] f_before(b) == f_after(b) by {
                    assert(m_before.contains_key((i, (sy + b) as i32)));
                }
                lemma_new_agree(f_before, f_after, (j - sy) as nat);
                lemma_flatten_new_step(f_after, (j - sy) as nat);
                assert((sy + (j - sy)) as i32 == j);
                assert(f_after((j - sy) as int) == chunk_ops(cv, i as int, j as int, cx as int, cy as int));
            }
            j = j + 1;
        }
        let ghost m_new = map.chunks();
        proof {
            assert(Seq::new(ny, |b: int| chunk_ops(m_new[(i, (sy + b) as i32)], i as int, sy + b, cx as int, cy as int)).flatten() == map_column_ops(m_new, i as int, sy as int, ny, cx as int, cy as int));
            lemma_columns_stable(m_col, m_new, sx as int, sy as int, (i - sx) as nat, ny, cx as int, cy as int);
            let colf = |a: int| map_column_ops(m_new, sx + a, sy as int, ny, cx as int, cy as int);
            lemma_flatten_new_step(colf, (i - sx) as nat);
            assert(colf((i - sx) as int) == map_column_ops(m_new, i as int, sy as int, ny, cx as int, cy as int));
            assert forall|a: int, b: int| 0 <= a < i + 1 - sx && 0 <= b < ny implies #[trigger] m_new.contains_key(((sx + a) as i32, (sy + b) as i32)) by {
                if a < i - sx {
                    assert(m_col.contains_key(((sx + a) as i32, (sy + b) as i32)));
                } else {
                    assert((sx + a) as i32 == i);
                    assert(m_new.contains_key((i, (sy + b) as i32)));
                }
            }
        }
        i = i + 1;
    }
}

/// The steps that draw the other actors: an `O` at each one's position
/// seen from the camera at `(cx, cy)`, in the order given, skipping the
/// actor with key `skip`.
pub open spec fn others_ops(others: Seq<(u16, PointActor)>, skip: u16, cx: int, cy: int) -> Seq<DrawView>
    decreases others.len(),
{
    if others.len() == 0 {
        seq![]
    } else {
        let rest = others_ops(others.drop_last(), skip, cx, cy);
        let o = others.last();
        if o.0 == skip {
            rest
        } else {
            rest.push(DrawView::Plot((o.1.x - cx) as i32, (o.1.y - cy) as i32, 'O'))
        }
    }
}

/// The screen position of every other actor but `skip` fits in an `i32`.
pub open spec fn others_fit(others: Seq<(u16, PointActor)>, skip: u16, cx: int, cy: int) -> bool {
    forall|k: int|
        0 <= k < others.len() && (#[trigger] others[k]).0 != skip ==> {
            &&& i32::MIN <= others[k].1.x - cx <= i32::MAX
            &&& i32::MIN <= others[k].1.y - cy <= i32::MAX
        }
}

/// Appends the steps that draw the other actors (see `others_ops`).
pub fn push_others_ops(ops: &mut Vec<DrawOp>, others: &Vec<(u16, PointActor)>, skip: u16, cx: i32, cy: i32)
    requires
        others_fit(others@, skip, cx as int, cy as int),
    ensures
        ops_view(final(ops)@) == ops_view(old(ops)@) + others_ops(others@, skip, cx as int, cy as int),
{
    let ghost base = ops_view(ops@);
    for k in 0..others.len()
        invariant
            others_fit(others@, skip, cx as int, cy as int),
            ops_view(ops@) == base + others_ops(others@.take(k as int), skip, cx as int, cy as int),
    {
        let (key, p) = others[k];
        proof {
            assert(others@.take(k + 1).drop_last() =~= others@.take(k as int));
            assert(others@.take(k + 1).last() == others@[k as int]);
        }
        if key != skip {
            let ghost o = others@[k as int];
            assert(o.0 != skip);
            push_op(ops, DrawOp::Plot(p.x - cx, p.y - cy, 'O'));
        }
        assert(ops_view(ops@) =~= base + others_ops(others@.take(k + 1), skip, cx as int, cy as int));
    }
    assert(others@.take(others.len() as int) =~= others@);
}

/// The length of `s` in bytes, as UTF-8 encodes it.
pub open spec fn byte_len(s: String) -> usize {
    encode_utf8(s@).len() as usize
}

/// How many rows a chat line of `s` takes on a screen `width` columns wide.
pub open spec fn line_rows(s: String, width: i32) -> int {
    ceil_div((byte_len(s) as i32) as int, width as int)
}

/// The steps that write the chat lines `lines`, the first at row
/// `base + j`, each following one as many rows further down as the one
/// before takes (see `line_rows`).
pub open spec fn chat_rows(lines: Seq<String>, width: i32, base: int, j: int) -> Seq<DrawView>
    decreases lines.len(),
{
    if lines.len() == 0 {
        seq![]
    } else {
        seq![DrawView::Text((base + j) as i32, 0, lines[0]@)] + chat_rows(
            lines.drop_first(),
            width,
            base,
            j + line_rows(lines[0], width),
        )
    }
}

/// Laying out the chat lines `lines` (see `chat_rows`) divides by a width
/// that allows it and keeps every row in an `i32`.
pub open spec fn chat_fits(lines: Seq<String>, width: i32, base: int, j: int) -> bool
    decreases lines.len(),
{
    lines.len() == 0 || {
        &&& i32::MIN <= base + j <= i32::MAX
        &&& width != 0
        &&& !((byte_len(lines[0]) as i32) == i32::MIN && width == -1)
        &&& i32::MIN <= j + line_rows(lines[0], width) <= i32::MAX
        &&& chat_fits(lines.drop_first(), width, base, j + line_rows(lines[0], width))
    }
}

/// Appends the steps that write `log[start..]` (see `chat_rows`), the first
/// at row `base`.
pub fn push_chat_ops(ops: &mut Vec<DrawOp>, log: &Vec<String>, start: usize, width: i32, base: i32)
    requires
        start <= log.len(),
        chat_fits(log@.subrange(start as int, log.len() as int), width, base as int, 0),
    ensures
        ops_view(final(ops)@) == ops_view(old(ops)@) + chat_rows(
            log@.subrange(start as int, log.len() as int),
            width,
            base as int,
            0,
        ),
{
    let ghost base_ops = ops_view(ops@);
    let ghost all = log@.subrange(start as int, log.len() as int);
    let mut j: i32 = 0;
    let mut i = start;
    while i < log.len()
        invariant
            start <= i <= log.len(),
            all == log@.subrange(start as int, log.len() as int),
            chat_fits(log@.subrange(i as int, log.len() as int), width, base as int, j as int),
            base_ops + chat_rows(all, width, base as int, 0) == ops_view(ops@) + chat_rows(
                log@.subrange(i as int, log.len() as int),
                width,
                base as int,
                j as int,
            ),
        decreases log.len() - i,
    {
        let ghost rest = log@.subrange(i as int, log.len() as int);
        assert(rest[0] == log@[i as int]);
        assert(rest.drop_first() =~= log@.subrange(i + 1, log.len() as int));
        let line = &log[i];
        let row = base + j;
        let ghost before = ops_view(ops@);
        push_op(ops, DrawOp::Text(row, 0, line.clone()));
        let n = #[verifier::truncate] (line.as_str().len() as i32);
        let q = div_ceil(n, width);
        assert(q == line_rows(log@[i as int], width));
        j = j + q;
        assert(ops_view(ops@) == before.push(DrawView::Text(row, 0, line@)));
        assert(chat_rows(rest, width, base as int, j - q) =~= seq![DrawView::Text(row, 0, line@)] + chat_rows(
            log@.subrange(i + 1, log.len() as int),
            width,
            base as int,
            j as int,
        ));
        i = i + 1;
    }
    assert(log@.subrange(i as int, log.len() as int) =~= Seq::<String>::empty());
    assert(ops_view(ops@) + chat_rows(Seq::<String>::empty(), width, base as int, j as int) =~= ops_view(ops@));
}

/// Tells whether `chunk_fits(i, cx)` holds.
pub fn check_chunk_fits(i: i64, cx: i64) -> (ok: bool)
    requires
        i32::MIN <= i <= i32::MAX + 1,
        i32::MIN <= cx <= i32::MAX,
    ensures
        ok == chunk_fits(i as int, cx as int),
{
    let lo = i * 32;
    let hi = i * 32 + 31;
    i32::MIN as i64 <= lo && hi <= i32::MAX as i64 && i32::MIN as i64 <= lo - cx && hi - cx
        <= i32::MAX as i64
}

/// Tells whether `others_fit(others, skip, cx, cy)` holds.
pub fn check_others_fit(others: &Vec<(u16, PointActor)>, skip: u16, cx: i32, cy: i32) -> (ok: bool)
    ensures
        ok == others_fit(others@, skip, cx as int, cy as int),
{
    for k in 0..others.len()
        invariant
            forall|m: int|
                0 <= m < k && (#[trigger] others@[m]).0 != skip ==> {
                    &&& i32::MIN <= others@[m].1.x - cx <= i32::MAX
                    &&& i32::MIN <= others@[m].1.y - cy <= i32::MAX
                },
    {
        let (key, p) = others[k];
        if key != skip {
            let x = p.x as i64 - cx as i64;
            let y = p.y as i64 - cy as i64;
            if x < i32::MIN as i64 || x > i32::MAX as i64 || y < i32::MIN as i64 || y > i32::MAX as i64 {
                assert(others@[k as int].0 != skip);
                return false;
            }
        }
    }
    true
}

/// Tells whether `chat_fits(log[start..], width, base, 0)` holds.
pub fn check_chat_fits(log: &Vec<String>, start: usize, width: i32, base: i32) -> (ok: bool)
    requires
        start <= log.len(),
    ensures
        ok == chat_fits(log@.subrange(start as int, log.len() as int), width, base as int, 0),
{
    let mut j: i32 = 0;
    let mut i = start;
    while i < log.len()
        invariant
            start <= i <= log.len(),
            chat_fits(log@.subrange(start as int, log.len() as int), width, base as int, 0)
                == chat_fits(log@.subrange(i as int, log.len() as int), width, base as int, j as int),
        decreases log.len() - i,
    {
        let ghost rest = log@.subrange(i as int, log.len() as int);
        assert(rest[0] == log@[i as int]);
        assert(rest.drop_first() =~= log@.subrange(i + 1, log.len() as int));
        let row = base as i64 + j as i64;
        if row < i32::MIN as i64 || row > i32::MAX as i64 {
            return false;
        }
        let n = #[verifier::truncate] (log[i].as_str().len() as i32);
        if width == 0 || (n == i32::MIN && width == -1) {
            return false;
        }
        let q = div_ceil(n, width);
        let next = j as i64 + q as i64;
        if next < i32::MIN as i64 || next > i32::MAX as i64 {
            return false;
        }
        j = next as i32;
        i = i + 1;
    }
    assert(log@.subrange(i as int, log.len() as int).len() == 0);
    true
}

} // verus!
