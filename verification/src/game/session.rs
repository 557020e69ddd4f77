//! The stand-alone game's turns: what each input does and what each turn draws.

use vstd::prelude::*;
use crate::draw::{ops_view, push_op, DrawOp, DrawView, HIGHLIGHT};
use crate::game::draw::{chunk_fits, covers, extends, map_ops, push_map_ops, within};
use crate::game::draw::check_chunk_fits;
use crate::game::map::{WorldMap, CHUNK_SIZE, CHUNK_SIZE_I32};
use crate::integer::{ceil_div, div_ceil, div_floor, floor_div};
use crate::shared::game::map::trunc_div;
use crate::text::{decimal, push_decimal, string_push};

verus! {

/// What the terminal reports to the stand-alone game in one turn.
#[derive(Clone, Copy, Debug, PartialEq, Eq, Structural)]
pub enum Input {
    /// The terminal was resized to this width and height.
    Resize(i32, i32),
    /// A mouse event at column `.0`, row `.1`, with the button state `.2`.
    Mouse(i32, i32, u64),
    /// A mouse event that could not be read.
    MouseError,
    /// A typed character.
    Character(char),
    /// A key the terminal does not know, with its code.
    Unknown(i32),
    /// Nothing, or any other key.
    Other,
}

/// The stand-alone game between turns.
pub struct Session {
    /// The terminal's width and height.
    pub ss: (i32, i32),
    pub paused: bool,
    pub player_x: i32,
    pub player_y: i32,
    /// Where the last line to draw starts.
    pub x0: i32,
    pub y0: i32,
    /// Whether a line to draw was started.
    pub toggle: bool,
    /// The last mouse position.
    pub mx: i32,
    pub my: i32,
    /// The last mouse button state.
    pub old_m: u64,
    /// The button state bits of a released first button.
    pub release_mask: u64,
    /// Whether the player moved since the map was last drawn.
    pub have_moved: bool,
    pub map: WorldMap,
}

/// The session after the input `input` (see `Session::handle_input`).
pub open spec fn after_input(s: Session, input: Input) -> Session {
    match input {
        Input::Resize(w, h) => Session { ss: (w, h), ..s },
        Input::Mouse(x, y, bstate) => {
            let released = bstate & s.release_mask == s.release_mask;
            Session {
                mx: x,
                my: y,
                old_m: bstate,
                toggle: if released {
                    !s.toggle
                } else {
                    s.toggle
                },
                x0: if released && !s.toggle {
                    x
                } else {
                    s.x0
                },
                y0: if released && !s.toggle {
                    y
                } else {
                    s.y0
                },
                ..s
            }
        },
        Input::Character(c) => {
            if c as u32 == 27 {
                Session { paused: !s.paused, ..s }
            } else if c as u32 == 119 {
                Session { player_y: (s.player_y - 1) as i32, have_moved: true, ..s }
            } else if c as u32 == 115 {
                Session { player_y: (s.player_y + 1) as i32, have_moved: true, ..s }
            } else if c as u32 == 97 {
                Session { player_x: (s.player_x - 1) as i32, have_moved: true, ..s }
            } else if c as u32 == 100 {
                Session { player_x: (s.player_x + 1) as i32, have_moved: true, ..s }
            } else {
                s
            }
        },
        _ => s,
    }
}

/// Moving the player keeps its position in an `i32`.
pub open spec fn input_fits(s: Session, input: Input) -> bool {
    match input {
        Input::Character(c) => {
            &&& c as u32 == 119 ==> s.player_y > i32::MIN
            &&& c as u32 == 115 ==> s.player_y < i32::MAX
            &&& c as u32 == 97 ==> s.player_x > i32::MIN
            &&& c as u32 == 100 ==> s.player_x < i32::MAX
        },
        _ => true,
    }
}

/// The middle of a screen `size` cells wide.
pub open spec fn center(size: i32) -> int {
    floor_div(size as int, 2)
}

/// The map column (or row) at the screen's first column (or row): the
/// player stands in the middle.
pub open spec fn camera(player: i32, size: i32) -> int {
    player - center(size)
}

/// The chunk that holds the screen's first column (or row) `cam`.
pub open spec fn first_chunk(cam: int) -> int {
    floor_div(cam, CHUNK_SIZE as int)
}

/// How many chunks are drawn across a screen `size` cells wide, where
/// positive.
pub open spec fn chunk_span(size: i32) -> int {
    ceil_div(size as int, CHUNK_SIZE as int) + 1
}

/// `chunk_span`, where it is positive, and zero otherwise.
pub open spec fn chunk_count(size: i32) -> nat {
    if chunk_span(size) > 0 {
        chunk_span(size) as nat
    } else {
        0
    }
}

/// The chunks drawn along one axis keep their bounds and every screen
/// position in an `i32`.
pub open spec fn map_fits(cam: int, size: i32) -> bool {
    let s = first_chunk(cam);
    &&& i32::MIN <= s + ceil_div(size as int, CHUNK_SIZE as int) <= i32::MAX
    &&& s + chunk_span(size) <= i32::MAX
    &&& chunk_span(size) > 0 ==> chunk_fits(s, cam) && chunk_fits(s + chunk_span(size) - 1, cam)
}

/// Drawing a turn keeps every number in an `i32`.
pub open spec fn draw_fits(s: Session) -> bool {
    !s.paused ==> {
        &&& i32::MIN <= camera(s.player_x, s.ss.0) <= i32::MAX
        &&& i32::MIN <= camera(s.player_y, s.ss.1) <= i32::MAX
        &&& s.have_moved ==> map_fits(camera(s.player_x, s.ss.0), s.ss.0) && map_fits(
            camera(s.player_y, s.ss.1),
            s.ss.1,
        )
    }
}

/// Two numbers as `{},{}` writes them.
pub open spec fn pair_line(a: int, b: int) -> Seq<char> {
    decimal(a) + seq![','] + decimal(b)
}

/// The steps that draw a turn. While paused, `PAUSED` in the middle (at
/// row `width / 2`, column `height / 2`, rounded toward zero). Otherwise,
/// after a move, the chunks around the player (read from `chunks`) and
/// the player as an `@` in the middle; then the frame-time line, the
/// screen size, and how many chunks fit across and down.
pub open spec fn turn_ops(s: Session, chunks: Map<(i32, i32), crate::game::map::Chunk>) -> Seq<DrawView> {
    if s.paused {
        seq![
            DrawView::Text(
                trunc_div(s.ss.0 as int, 2) as i32,
                trunc_div(s.ss.1 as int, 2) as i32,
                "PAUSED"@,
            ),
        ]
    } else {
        let cx = camera(s.player_x, s.ss.0);
        let cy = camera(s.player_y, s.ss.1);
        (if s.have_moved {
            map_ops(
                chunks,
                first_chunk(cx),
                first_chunk(cy),
                chunk_count(s.ss.0),
                chunk_count(s.ss.1),
                cx,
                cy,
            ) + seq![
                DrawView::ColorPair(HIGHLIGHT),
                DrawView::Plot(center(s.ss.0) as i32, center(s.ss.1) as i32, '@'),
            ]
        } else {
            seq![]
        }) + seq![
            DrawView::FrameTime(0, 0),
            DrawView::Text(1, 0, pair_line(s.ss.0 as int, s.ss.1 as int)),
            DrawView::Text(
                2,
                0,
                pair_line(
                    ceil_div(s.ss.0 as int, CHUNK_SIZE as int),
                    ceil_div(s.ss.1 as int, CHUNK_SIZE as int),
                ),
            ),
        ]
    }
}

/// Appends `a,b` to `s`.
fn push_pair(s: &mut String, a: i32, b: i32)
    ensures
        final(s)@ == old(s)@ + pair_line(a as int, b as int),
{
    push_decimal(s, a as i64);
    string_push(s, ',');
    push_decimal(s, b as i64);
    assert(s@ =~= old(s)@ + pair_line(a as int, b as int));
}

/// Tells whether `map_fits(cam, size)` holds.
fn check_map_fits(cam: i32, size: i32) -> (ok: bool)
    ensures
        ok == map_fits(cam as int, size),
{
    let s = div_floor(cam, CHUNK_SIZE_I32) as i64;
    let c = div_ceil(size, CHUNK_SIZE_I32) as i64;
    if s + c < i32::MIN as i64 || s + c > i32::MAX as i64 || s + c + 1 > i32::MAX as i64 {
        return false;
    }
    if c + 1 > 0 {
        check_chunk_fits(s, cam as i64) && check_chunk_fits(s + c, cam as i64)
    } else {
        true
    }
}

impl Session {
    /// Tells whether `handle_input` may take `input` (see `input_fits`).
    pub fn input_ok(&self, input: &Input) -> (ok: bool)
        ensures
            ok == input_fits(*self, *input),
    {
        match input {
            Input::Character(c) => {
                let code = *c as u32;
                !(code == 119 && self.player_y == i32::MIN) && !(code == 115 && self.player_y
                    == i32::MAX) && !(code == 97 && self.player_x == i32::MIN) && !(code == 100
                    && self.player_x == i32::MAX)
            },
            _ => true,
        }
    }

    /// Tells whether `draw` may be called (see `draw_fits`).
    pub fn ready_to_draw(&self) -> (ok: bool)
        ensures
            ok == draw_fits(*self),
    {
        if self.paused {
            return true;
        }
        let center_x = div_floor(self.ss.0, 2);
        let center_y = div_floor(self.ss.1, 2);
        let cam_x = self.player_x as i64 - center_x as i64;
        let cam_y = self.player_y as i64 - center_y as i64;
        if cam_x < i32::MIN as i64 || cam_x > i32::MAX as i64 || cam_y < i32::MIN as i64 || cam_y
            > i32::MAX as i64 {
            return false;
        }
        if self.have_moved {
            check_map_fits(cam_x as i32, self.ss.0) && check_map_fits(cam_y as i32, self.ss.1)
        } else {
            true
        }
    }

    /// A new game on a terminal `ss` wide and high, whose mouse reports a
    /// released first button with the bits `release_mask`: the player at
    /// the origin, an empty map, and nothing moved yet.
    pub fn new(ss: (i32, i32), release_mask: u64) -> (s: Session)
        ensures
            s.ss == ss,
            !s.paused,
            s.player_x == 0 && s.player_y == 0,
            s.x0 == 0 && s.y0 == 0,
            !s.toggle,
            s.mx == 0 && s.my == 0,
            s.old_m == release_mask,
            s.release_mask == release_mask,
            !s.have_moved,
            s.map.chunks() == Map::<(i32, i32), crate::game::map::Chunk>::empty(),
    {
        Session {
            ss,
            paused: false,
            player_x: 0,
            player_y: 0,
            x0: 0,
            y0: 0,
            toggle: false,
            mx: 0,
            my: 0,
            old_m: release_mask,
            release_mask,
            have_moved: false,
            map: WorldMap::new(),
        }
    }

    /// Reacts to one input (see `after_input`): a resize takes the new
    /// size, a mouse event records the position and button state and, on a
    /// released first button, marks the spot with an `x` and starts or
    /// ends a line, escape pauses or resumes, and `w`, `s`, `a`, `d` move
    /// the player. It tells whether the player asked to quit (`q`) and
    /// gives the steps to draw.
    pub fn handle_input(&mut self, input: Input) -> (r: (bool, Vec<DrawOp>))
        requires
            input_fits(*old(self), input),
        ensures
            *final(self) == after_input(*old(self), input),
            r.0 == (input matches Input::Character(c) && c as u32 == 113),
            ops_view(r.1@) == match input {
                Input::Mouse(x, y, bstate) => if bstate & old(self).release_mask == old(self).release_mask {
                    seq![DrawView::Plot(x, y, 'x')]
                } else {
                    seq![]
                },
                _ => seq![],
            },
    {
        let mut ops: Vec<DrawOp> = Vec::new();
        let mut quit = false;
        match input {
            Input::Resize(w, h) => {
                self.ss = (w, h);
            },
            Input::Mouse(x, y, bstate) => {
                self.mx = x;
                self.my = y;
                if bstate != self.old_m {
                    self.old_m = bstate;
                }
                if bstate & self.release_mask == self.release_mask {
                    self.toggle = !self.toggle;
                    push_op(&mut ops, DrawOp::Plot(x, y, 'x'));
                    if self.toggle {
                        self.x0 = x;
                        self.y0 = y;
                    }
                }
            },
            Input::Character(c) => {
                let code = c as u32;
                if code == 113 {
                    quit = true;
                } else if code == 27 {
                    self.paused = !self.paused;
                } else if code == 119 {
                    self.player_y = self.player_y - 1;
                    self.have_moved = true;
                } else if code == 115 {
                    self.player_y = self.player_y + 1;
                    self.have_moved = true;
                } else if code == 97 {
                    self.player_x = self.player_x - 1;
                    self.have_moved = true;
                } else if code == 100 {
                    self.player_x = self.player_x + 1;
                    self.have_moved = true;
                }
            },
            _ => {},
        }
        assert(ops_view(ops@) =~= match input {
            Input::Mouse(x, y, bstate) => if bstate & old(self).release_mask == old(self).release_mask {
                seq![DrawView::Plot(x, y, 'x')]
            } else {
                seq![]
            },
            _ => seq![],
        });
        (quit, ops)
    }

    /// Draws the turn (see `turn_ops`), generating the map chunks it shows
    /// that the map lacks, and clears the moved mark where it draws the
    /// map.
    pub fn draw(&mut self) -> (ops: Vec<DrawOp>)
        requires
            draw_fits(*old(self)),
        ensures
            ops_view(ops@) == turn_ops(*old(self), final(self).map.chunks()),
            *final(self) == (Session {
                map: final(self).map,
                have_moved: old(self).have_moved && old(self).paused,
                ..*old(self)
            }),
            !(old(self).have_moved && !old(self).paused) ==> final(self).map == old(self).map,
            old(self).have_moved && !old(self).paused ==> {
                let sx = first_chunk(camera(old(self).player_x, old(self).ss.0));
                let sy = first_chunk(camera(old(self).player_y, old(self).ss.1));
                let nx = chunk_count(old(self).ss.0) as int;
                let ny = chunk_count(old(self).ss.1) as int;
                &&& extends(final(self).map.chunks(), old(self).map.chunks())
                &&& covers(final(self).map.chunks(), sx, sy, nx, ny)
                &&& within(final(self).map.chunks(), old(self).map.chunks(), sx, sy, nx, ny)
            },
    {
        let mut ops: Vec<DrawOp> = Vec::new();
        if self.paused {
            let text = "PAUSED";
            push_op(&mut ops, DrawOp::Text(self.ss.0 / 2, self.ss.1 / 2, text.to_string()));
            assert(ops_view(ops@) =~= turn_ops(*old(self), self.map.chunks()));
            return ops;
        }
        let center_x = div_floor(self.ss.0, 2);
        let center_y = div_floor(self.ss.1, 2);
        let cam_off_x = self.player_x - center_x;
        let cam_off_y = self.player_y - center_y;
        let start_x = div_floor(cam_off_x, CHUNK_SIZE_I32);
        let start_y = div_floor(cam_off_y, CHUNK_SIZE_I32);
        if self.have_moved {
            let end_x = start_x + div_ceil(self.ss.0, CHUNK_SIZE_I32) + 1;
            let end_y = start_y + div_ceil(self.ss.1, CHUNK_SIZE_I32) + 1;
            push_map_ops(&mut ops, &mut self.map, start_x, end_x, start_y, end_y, cam_off_x, cam_off_y);
            self.have_moved = false;
            push_op(&mut ops, DrawOp::ColorPair(HIGHLIGHT));
            push_op(&mut ops, DrawOp::Plot(center_x, center_y, '@'));
        }
        push_op(&mut ops, DrawOp::FrameTime(0, 0));
        let mut size = String::new();
        push_pair(&mut size, self.ss.0, self.ss.1);
        push_op(&mut ops, DrawOp::Text(1, 0, size));
        let mut span = String::new();
        push_pair(&mut span, div_ceil(self.ss.0, CHUNK_SIZE_I32), div_ceil(self.ss.1, CHUNK_SIZE_I32));
        push_op(&mut ops, DrawOp::Text(2, 0, span));
        assert(ops_view(ops@) =~= turn_ops(*old(self), self.map.chunks()));
        ops
    }
}

} // verus!
