//! Properties that span several calls of the library.

use vstd::prelude::*;
use crate::client::app::{
    after_key, camera_x, camera_y, chunk_count, first_chunk, log_extends, server_address, App,
    KeyState,
};
use crate::client::renderer::{window_turn, Event, WindowInput};
use crate::integer::floor_div;
use crate::client::ui::MenuState;
use crate::shared::actors::PointActor;
use crate::shared::events::KeyCommand;
use crate::shared::game::map::{trunc_div, Chunk, WorldMap, CHUNK_SIZE};
use crate::game::map::{Chunk as SoloChunk, WorldMap as SoloMap, CHUNK_SIZE as SOLO_CHUNK_SIZE};
use crate::game::session::{after_input, Input, Session};
use crate::shared::shared_behaviour::{moved_x, moved_y};
use crate::text::{colon_count, decimal_digits};

verus! {

/// Asking twice for the chunk at `(x, y)` gives the same chunk, and the
/// second call changes nothing: a chunk is generated once.
pub proof fn law_get_or_create_is_idempotent(
    m0: WorldMap,
    m1: WorldMap,
    m2: WorldMap,
    x: i32,
    y: i32,
    c1: Chunk,
    c2: Chunk,
)
    requires
        m1.chunks() == m0.chunks().insert((x, y), c1),
        m2.chunks() == m1.chunks().insert((x, y), c2),
        m1.chunks().contains_key((x, y)) ==> m2 == m1,
    ensures
        m2 == m1,
        c2 == c1,
{
    assert(m1.chunks().contains_key((x, y)));
    assert(m2.chunks()[(x, y)] == c2);
}

/// The same for the stand-alone game's map: asking twice for the chunk at
/// `(x, y)` gives the same chunk, and the second call changes nothing.
pub proof fn law_solo_get_or_create_is_idempotent(
    m0: SoloMap,
    m1: SoloMap,
    m2: SoloMap,
    x: i32,
    y: i32,
    c1: SoloChunk,
    c2: SoloChunk,
)
    requires
        m1.chunks() == m0.chunks().insert((x, y), c1),
        m2.chunks() == m1.chunks().insert((x, y), c2),
        m1.chunks().contains_key((x, y)) ==> m2 == m1,
    ensures
        m2 == m1,
        c2 == c1,
{
    assert(m1.chunks().contains_key((x, y)));
    assert(m2.chunks()[(x, y)] == c2);
}

/// In the stand-alone game too, a point with non-negative coordinates lies
/// in the chunk that `get_chunk_from_point` looks up.
pub proof fn law_solo_point_lies_in_its_chunk(x: i32, y: i32)
    requires
        x >= 0,
        y >= 0,
    ensures
        trunc_div(x as int, SOLO_CHUNK_SIZE as int) * SOLO_CHUNK_SIZE <= x < trunc_div(
            x as int,
            SOLO_CHUNK_SIZE as int,
        ) * SOLO_CHUNK_SIZE + SOLO_CHUNK_SIZE,
        trunc_div(y as int, SOLO_CHUNK_SIZE as int) * SOLO_CHUNK_SIZE <= y < trunc_div(
            y as int,
            SOLO_CHUNK_SIZE as int,
        ) * SOLO_CHUNK_SIZE + SOLO_CHUNK_SIZE,
{
}

/// In the stand-alone game, escape twice leaves the pause as it was, and a
/// step followed by the opposite step brings the player back.
pub proof fn law_solo_steps_cancel(s: Session)
    requires
        i32::MIN < s.player_x < i32::MAX,
        i32::MIN < s.player_y < i32::MAX,
    ensures
        after_input(after_input(s, Input::Character('\u{1b}')), Input::Character('\u{1b}')).paused
            == s.paused,
        after_input(after_input(s, Input::Character('w')), Input::Character('s')).player_y
            == s.player_y,
        after_input(after_input(s, Input::Character('s')), Input::Character('w')).player_y
            == s.player_y,
        after_input(after_input(s, Input::Character('a')), Input::Character('d')).player_x
            == s.player_x,
        after_input(after_input(s, Input::Character('d')), Input::Character('a')).player_x
            == s.player_x,
{
}

/// For a point with non-negative coordinates, the chunk that
/// `get_chunk_from_point` looks up holds the point: the point lies within
/// the chunk's `CHUNK_SIZE` columns and rows.
pub proof fn law_point_lies_in_its_chunk(x: i32, y: i32)
    requires
        x >= 0,
        y >= 0,
    ensures
        trunc_div(x as int, CHUNK_SIZE as int) * CHUNK_SIZE <= x < trunc_div(x as int, CHUNK_SIZE as int)
            * CHUNK_SIZE + CHUNK_SIZE,
        trunc_div(y as int, CHUNK_SIZE as int) * CHUNK_SIZE <= y < trunc_div(y as int, CHUNK_SIZE as int)
            * CHUNK_SIZE + CHUNK_SIZE,
{
}

/// A command with no key held leaves the pawn where it is.
pub proof fn law_empty_command_keeps_pawn(p: PointActor)
    ensures
        moved_x(KeyCommand { w: false, s: false, a: false, d: false }, p.x) == p.x,
        moved_y(KeyCommand { w: false, s: false, a: false, d: false }, p.y) == p.y,
{
}

/// A step up followed by a step down, or a step left followed by a step
/// right, brings the pawn back, at the ends of `i32` too.
pub proof fn law_opposite_steps_cancel(p: PointActor)
    ensures
        moved_y(
            KeyCommand { w: false, s: true, a: false, d: false },
            moved_y(KeyCommand { w: true, s: false, a: false, d: false }, p.y),
        ) == p.y,
        moved_y(
            KeyCommand { w: true, s: false, a: false, d: false },
            moved_y(KeyCommand { w: false, s: true, a: false, d: false }, p.y),
        ) == p.y,
        moved_x(
            KeyCommand { w: false, s: false, a: false, d: true },
            moved_x(KeyCommand { w: false, s: false, a: true, d: false }, p.x),
        ) == p.x,
        moved_x(
            KeyCommand { w: false, s: false, a: true, d: false },
            moved_x(KeyCommand { w: false, s: false, a: false, d: true }, p.x),
        ) == p.x,
{
}

/// Inside a text field, backspace takes back the character just typed
/// (any character but enter and backspace).
pub proof fn law_backspace_undoes_typing(k: KeyState, c: char)
    requires
        k.menu_eaten,
        c as u32 != 8,
        c as u32 != 10,
        c as u32 != 27,
    ensures
        after_key(after_key(k, c), '\u{8}').menu_text == k.menu_text,
{
    assert(after_key(k, c).menu_text == k.menu_text.push(c));
    assert(k.menu_text.push(c).drop_last() =~= k.menu_text);
}

/// Escape typed twice leaves the game paused as it was.
pub proof fn law_escape_twice_keeps_pause(k: KeyState)
    ensures
        after_key(after_key(k, '\u{1b}'), '\u{1b}').paused == k.paused,
{
}

/// In the game, enter opens the chat, and a second enter sends what was
/// typed in between: it becomes the pending chat line, and the text and
/// the chat are cleared.
pub proof fn law_enter_sends_typed_chat(k: KeyState, typed: Seq<char>)
    requires
        k.menu_state == MenuState::Game,
        k.chat_open,
        k.menu_eaten,
        k.menu_text == typed,
    ensures
        after_key(k, '\n').chat_msg == Some(typed),
        after_key(k, '\n').menu_text == Seq::<char>::empty(),
        !after_key(k, '\n').chat_open,
        !after_key(k, '\n').menu_eaten,
{
}

/// Outside the game and outside a text field, `s` never moves the menu
/// selection past 255 and `w` never below 0.
pub proof fn law_selection_saturates(k: KeyState)
    requires
        k.menu_state != MenuState::Game,
        !k.menu_eaten,
    ensures
        k.menu_idx == 255 ==> after_key(k, 's').menu_idx == 255,
        k.menu_idx == 0 ==> after_key(k, 'w').menu_idx == 0,
        k.menu_idx < 255 ==> after_key(k, 's').menu_idx == k.menu_idx + 1,
        k.menu_idx > 0 ==> after_key(k, 'w').menu_idx == k.menu_idx - 1,
{
}

/// An address with no colon gets the server's port after a colon; one with
/// a single colon is kept as it is; any other is refused.
pub proof fn law_server_address(ip: Seq<char>)
    ensures
        colon_count(ip) == 0 ==> server_address(ip) == Some(ip + seq![':'] + decimal_digits(14191)),
        colon_count(ip) == 1 ==> server_address(ip) == Some(ip),
        colon_count(ip) >= 2 ==> server_address(ip) is None,
{
}

/// Over a whole run of the client, the chat log only grows at its end: where
/// each step keeps the earlier lines and appends (as `handle_key`,
/// `handle_client_event` and `draw_ui` each state), every later log starts
/// with every earlier one.
pub proof fn law_chat_log_only_grows(logs: Seq<Seq<String>>, i: int, j: int)
    requires
        forall|k: int| 0 <= k < logs.len() - 1 ==> #[trigger] log_extends(logs[k], logs[k + 1]),
        0 <= i <= j < logs.len(),
    ensures
        log_extends(logs[i], logs[j]),
    decreases j - i,
{
    if i == j {
        assert(logs[i].subrange(0, logs[i].len() as int) =~= logs[i]);
    } else {
        law_chat_log_only_grows(logs, i, j - 1);
        let k = j - 1;
        assert(log_extends(logs[k], logs[k + 1]));
        assert(k + 1 == j);
        assert(logs[j].subrange(0, logs[i].len() as int) =~= logs[j].subrange(
            0,
            logs[j - 1].len() as int,
        ).subrange(0, logs[i].len() as int));
    }
}

/// While the chat is open, typed characters go into its text: a typed
/// character never leaves the chat open without capturing the typing.
pub proof fn law_open_chat_captures_typing(k: KeyState, c: char)
    requires
        k.chat_open ==> k.menu_eaten,
    ensures
        after_key(k, c).chat_open ==> after_key(k, c).menu_eaten,
{
}

/// Along one axis, the chunks `floor_div(cam, n)` up to but not including
/// `floor_div(cam, n) + ceil(size / n) + 1` hold every cell `cam + c` with
/// `0 <= c < size`.
proof fn lemma_axis_covered(cam: int, size: int, c: int, n: int)
    requires
        n == 32 || n == 50,
        0 <= c < size,
    ensures
        floor_div(cam, n) <= floor_div(cam + c, n),
        floor_div(cam + c, n) < floor_div(cam, n) + (-((-size) / n)) + 1,
        floor_div(cam, n) * n <= cam,
        (floor_div(cam, n) + (-((-size) / n)) + 1) * n >= cam + size,
{
    let q = cam / n;
    let r = cam % n;
    let qc = (cam + c) / n;
    let up = -((-size) / n);
    assert(q * n + r == cam && 0 <= r < n) by (nonlinear_arith)
        requires
            n > 0,
            q == cam / n,
            r == cam % n,
    ;
    assert(qc * n <= cam + c < qc * n + n) by (nonlinear_arith)
        requires
            n > 0,
            qc == (cam + c) / n,
    ;
    assert(up * n >= size) by (nonlinear_arith)
        requires
            n > 0,
            up == -((-size) / n),
    ;
    assert(q <= qc) by (nonlinear_arith)
        requires
            n > 0,
            q * n <= cam,
            cam <= cam + c,
            cam + c < qc * n + n,
    ;
    assert(qc < q + up + 1) by (nonlinear_arith)
        requires
            n > 0,
            qc * n <= cam + c,
            cam + c < cam + size,
            cam < q * n + n,
            size <= up * n,
    ;
    assert((q + up + 1) * n >= cam + size) by (nonlinear_arith)
        requires
            n > 0,
            cam < q * n + n,
            size <= up * n,
    ;
}

/// The client draws enough of the map to fill the screen: for every screen
/// cell `(c, r)`, the chunk that holds the map tile shown there (the tile
/// at the camera plus `(c, r)`) lies among the chunks drawn, which start at
/// `first_chunk` of the camera and run `chunk_count` of the screen size
/// across and down.
pub proof fn law_drawn_chunks_cover_screen(a: App, c: int, r: int)
    requires
        0 <= c < a.ss.0,
        0 <= r < a.ss.1,
    ensures
        first_chunk(camera_x(a)) * CHUNK_SIZE <= camera_x(a),
        (first_chunk(camera_x(a)) + chunk_count(a.ss.0)) * CHUNK_SIZE >= camera_x(a) + a.ss.0,
        first_chunk(camera_x(a)) <= floor_div(camera_x(a) + c, CHUNK_SIZE as int) < first_chunk(
            camera_x(a),
        ) + chunk_count(a.ss.0),
        first_chunk(camera_y(a)) * CHUNK_SIZE <= camera_y(a),
        (first_chunk(camera_y(a)) + chunk_count(a.ss.1)) * CHUNK_SIZE >= camera_y(a) + a.ss.1,
        first_chunk(camera_y(a)) <= floor_div(camera_y(a) + r, CHUNK_SIZE as int) < first_chunk(
            camera_y(a),
        ) + chunk_count(a.ss.1),
{
    lemma_axis_covered(camera_x(a), a.ss.0 as int, c, 32);
    lemma_axis_covered(camera_y(a), a.ss.1 as int, r, 32);
}

/// The stand-alone game, after a move, draws enough of the map to fill the
/// screen: every screen cell's map tile lies in a drawn chunk.
pub proof fn law_solo_drawn_chunks_cover_screen(s: Session, c: int, r: int)
    requires
        0 <= c < s.ss.0,
        0 <= r < s.ss.1,
    ensures
        ({
            let cx = crate::game::session::camera(s.player_x, s.ss.0);
            let cy = crate::game::session::camera(s.player_y, s.ss.1);
            let fx = crate::game::session::first_chunk(cx);
            let fy = crate::game::session::first_chunk(cy);
            &&& fx * SOLO_CHUNK_SIZE <= cx
            &&& (fx + crate::game::session::chunk_count(s.ss.0)) * SOLO_CHUNK_SIZE >= cx + s.ss.0
            &&& fx <= floor_div(cx + c, SOLO_CHUNK_SIZE as int) < fx
                + crate::game::session::chunk_count(s.ss.0)
            &&& fy * SOLO_CHUNK_SIZE <= cy
            &&& (fy + crate::game::session::chunk_count(s.ss.1)) * SOLO_CHUNK_SIZE >= cy + s.ss.1
            &&& fy <= floor_div(cy + r, SOLO_CHUNK_SIZE as int) < fy
                + crate::game::session::chunk_count(s.ss.1)
        }),
{
    lemma_axis_covered(crate::game::session::camera(s.player_x, s.ss.0), s.ss.0 as int, c, 50);
    lemma_axis_covered(crate::game::session::camera(s.player_y, s.ss.1), s.ss.1 as int, r, 50);
}

/// In the client, each movement key queues the command that holds that key
/// alone, whatever the state: `w` up, `s` down, `a` left, `d` right.
pub proof fn law_movement_keys_queue_their_command(k: KeyState)
    ensures
        after_key(k, 'w').queued_command == Some(KeyCommand { w: true, s: false, a: false, d: false }),
        after_key(k, 's').queued_command == Some(KeyCommand { w: false, s: true, a: false, d: false }),
        after_key(k, 'a').queued_command == Some(KeyCommand { w: false, s: false, a: true, d: false }),
        after_key(k, 'd').queued_command == Some(KeyCommand { w: false, s: false, a: false, d: true }),
{
}

/// In the stand-alone game, each movement key moves the player one tile
/// (`w` up, `s` down, `a` left, `d` right), leaves the other coordinate as
/// it was, and marks the player as moved so the next turn redraws the map.
pub proof fn law_solo_movement_keys_move_and_mark(s: Session)
    requires
        i32::MIN < s.player_x < i32::MAX,
        i32::MIN < s.player_y < i32::MAX,
    ensures
        after_input(s, Input::Character('w')).have_moved,
        after_input(s, Input::Character('w')).player_y == s.player_y - 1,
        after_input(s, Input::Character('w')).player_x == s.player_x,
        after_input(s, Input::Character('s')).have_moved,
        after_input(s, Input::Character('s')).player_y == s.player_y + 1,
        after_input(s, Input::Character('s')).player_x == s.player_x,
        after_input(s, Input::Character('a')).have_moved,
        after_input(s, Input::Character('a')).player_x == s.player_x - 1,
        after_input(s, Input::Character('a')).player_y == s.player_y,
        after_input(s, Input::Character('d')).have_moved,
        after_input(s, Input::Character('d')).player_x == s.player_x + 1,
        after_input(s, Input::Character('d')).player_y == s.player_y,
{
}

/// In the OpenGL window, pressed Enter, Backspace and Escape (scan codes
/// 28, 14 and 1) give a newline, a backspace and an escape character, any
/// other pressed key gives nothing, a received character passes through,
/// and a released key gives nothing.
pub proof fn law_window_keys(code: u32, ch: char)
    ensures
        window_turn(WindowInput::KeyPressed(28)).0 == Some(Event::Character('\n')),
        window_turn(WindowInput::KeyPressed(14)).0 == Some(Event::Character('\u{8}')),
        window_turn(WindowInput::KeyPressed(1)).0 == Some(Event::Character('\u{1b}')),
        code != 28 && code != 14 && code != 1 ==> window_turn(WindowInput::KeyPressed(code)).0 is None,
        window_turn(WindowInput::KeyReleased(code)).0 is None,
        window_turn(WindowInput::ReceivedCharacter(ch)).0 == Some(Event::Character(ch)),
        !window_turn(WindowInput::KeyPressed(code)).1,
        window_turn(WindowInput::CloseRequested).1,
{
}

} // verus!
