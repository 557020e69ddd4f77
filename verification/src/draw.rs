//! The drawing steps that the library hands to whoever owns the screen, and how a grid of tiles is drawn.

use vstd::prelude::*;
use crate::shared::game::map::Tile;

verus! {

/// One step of drawing a frame, in the order the screen receives them.
#[derive(Clone, Debug)]
pub enum DrawOp {
    /// Clear the screen.
    Erase,
    /// Draw from now on in this colour pair.
    ColorPair(u32),
    /// Write the text at row `.0`, column `.1`.
    Text(i32, i32, String),
    /// Put the character at column `.0`, row `.1`.
    Plot(i32, i32, char),
    /// Write the frame-time line, which the caller formats from its clock,
    /// at row `.0`, column `.1`.
    FrameTime(i32, i32),
}

/// A drawing step with its text as characters.
pub enum DrawView {
    Erase,
    ColorPair(u32),
    Text(i32, i32, Seq<char>),
    Plot(i32, i32, char),
    FrameTime(i32, i32),
}

impl View for DrawOp {
    type V = DrawView;

    open spec fn view(&self) -> DrawView {
        match self {
            DrawOp::Erase => DrawView::Erase,
            DrawOp::ColorPair(n) => DrawView::ColorPair(*n),
            DrawOp::Text(row, col, t) => DrawView::Text(*row, *col, t@),
            DrawOp::Plot(col, row, c) => DrawView::Plot(*col, *row, *c),
            DrawOp::FrameTime(row, col) => DrawView::FrameTime(*row, *col),
        }
    }
}

/// The drawing steps of `ops`, with their texts as characters.
pub open spec fn ops_view(ops: Seq<DrawOp>) -> Seq<DrawView> {
    ops.map_values(|o: DrawOp| o@)
}

/// Pushing a step adds its view.
pub proof fn lemma_ops_view_push(ops: Seq<DrawOp>, o: DrawOp)
    ensures
        ops_view(ops.push(o)) == ops_view(ops).push(o@),
{
    assert(ops_view(ops.push(o)) =~= ops_view(ops).push(o@));
}

/// Appends `o` to `ops`.
pub fn push_op(ops: &mut Vec<DrawOp>, o: DrawOp)
    ensures
        ops_view(final(ops)@) == ops_view(old(ops)@).push(o@),
{
    proof {
        lemma_ops_view_push(old(ops)@, o);
    }
    ops.push(o);
}

/// The colour pair of highlighted text.
pub const HIGHLIGHT: u32 = 7;

/// The colour pair of plain text and of air.
pub const PLAIN: u32 = 8;

/// The colour pair of walls.
pub const WALL: u32 = 2;

/// Growing `Seq::new(k, f)` by one and flattening adds `f(k)`.
pub proof fn lemma_flatten_new_step(f: spec_fn(int) -> Seq<DrawView>, k: nat)
    ensures
        Seq::new(k + 1, f).flatten() == Seq::new(k, f).flatten() + f(k as int),
{
    assert(Seq::new(k + 1, f) =~= Seq::new(k, f).push(f(k as int)));
    Seq::new(k, f).lemma_flatten_push(f(k as int));
}

/// `Seq::new(0, f)` flattens to nothing.
pub proof fn lemma_flatten_new_empty(f: spec_fn(int) -> Seq<DrawView>)
    ensures
        Seq::new(0, f).flatten() == Seq::<DrawView>::empty(),
{
    assert(Seq::new(0, f) =~= Seq::<Seq<DrawView>>::empty());
}

/// Two sequences built from functions that agree below `n` are equal.
pub proof fn lemma_new_agree(f: spec_fn(int) -> Seq<DrawView>, g: spec_fn(int) -> Seq<DrawView>, n: nat)
    requires
        forall|k: int| 0 <= k < n ==> #[trigger] f(k) == g(k),
    ensures
        Seq::new(n, f) == Seq::new(n, g),
{
    assert(Seq::new(n, f) =~= Seq::new(n, g));
}

/// The colour pair a tile is drawn in: plain for air, the wall pair for
/// walls.
pub open spec fn tile_color(t: Tile) -> u32 {
    match t {
        Tile::Air => PLAIN,
        Tile::Wall => WALL,
    }
}

/// The steps that draw a tile at screen column `px`, row `py`: its colour,
/// then a blank.
pub open spec fn tile_ops(t: Tile, px: int, py: int) -> Seq<DrawView> {
    seq![DrawView::ColorPair(tile_color(t)), DrawView::Plot(px as i32, py as i32, ' ')]
}

/// The tiles of a square grid, by column and row.
pub open spec fn grid_view<const N: usize>(tiles: [[Tile; N]; N]) -> Seq<Seq<Tile>> {
    tiles@.map_values(|row: [Tile; N]| row@)
}

/// The steps that draw column `x` of the `n` by `n` grid `tiles` with its
/// first tile at screen column `ox`, row `oy`.
pub open spec fn grid_column_ops(tiles: Seq<Seq<Tile>>, n: nat, ox: int, oy: int, x: int) -> Seq<DrawView> {
    Seq::new(n, |y: int| tile_ops(tiles[x][y], ox + x, oy + y)).flatten()
}

/// The steps that draw the `n` by `n` grid `tiles` with its first tile at
/// screen column `ox`, row `oy`: its tiles column by column.
pub open spec fn grid_ops(tiles: Seq<Seq<Tile>>, n: nat, ox: int, oy: int) -> Seq<DrawView> {
    Seq::new(n, |x: int| grid_column_ops(tiles, n, ox, oy, x)).flatten()
}

/// Appends the steps that draw the grid `tiles` with its first tile at
/// screen column `ox`, row `oy` (see `grid_ops`).
pub fn push_grid_ops<const N: usize>(ops: &mut Vec<DrawOp>, tiles: &[[Tile; N]; N], ox: i32, oy: i32)
    requires
        N <= i32::MAX,
        ox + N <= i32::MAX + 1,
        oy + N <= i32::MAX + 1,
    ensures
        ops_view(final(ops)@) == ops_view(old(ops)@) + grid_ops(grid_view(*tiles), N as nat, ox as int, oy as int),
{
    let ghost base = ops_view(ops@);
    let ghost g = grid_view(*tiles);
    let ghost colf = |x: int| grid_column_ops(g, N as nat, ox as int, oy as int, x);
    proof {
        lemma_flatten_new_empty(colf);
    }
    for x in 0..N
        invariant
            N <= i32::MAX,
            ox + N <= i32::MAX + 1,
            oy + N <= i32::MAX + 1,
            g == grid_view(*tiles),
            colf == (|x: int| grid_column_ops(g, N as nat, ox as int, oy as int, x)),
            ops_view(ops@) == base + Seq::new(x as nat, colf).flatten(),
    {
        let ghost mid = ops_view(ops@);
        let ghost tilef = |y: int| tile_ops(g[x as int][y], ox + x, oy + y);
        proof {
            lemma_flatten_new_empty(tilef);
        }
        for y in 0..N
            invariant
                0 <= x < N,
                N <= i32::MAX,
                ox + N <= i32::MAX + 1,
                oy + N <= i32::MAX + 1,
                g == grid_view(*tiles),
                tilef == (|y: int| tile_ops(g[x as int][y], ox + x, oy + y)),
                ops_view(ops@) == mid + Seq::new(y as nat, tilef).flatten(),
        {
            let t = tiles[x][y];
            let color = match t {
                Tile::Air => PLAIN,
                Tile::Wall => WALL,
            };
            let px = ox + x as i32;
            let py = oy + y as i32;
            let ghost before = ops_view(ops@);
            push_op(ops, DrawOp::ColorPair(color));
            push_op(ops, DrawOp::Plot(px, py, ' '));
            proof {
                lemma_flatten_new_step(tilef, y as nat);
                assert(g[x as int][y as int] == t);
                assert(ops_view(ops@) =~= before + tilef(y as int));
            }
        }
        proof {
            lemma_flatten_new_step(colf, x as nat);
            assert(colf(x as int) == Seq::new(N as nat, tilef).flatten());
        }
    }
}

} // verus!
