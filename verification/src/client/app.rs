//! The client's state and how it reacts to keys, to the connection, and to each frame.

use vstd::prelude::*;
use crate::client::ui::MenuState;
use crate::draw::{ops_view, push_op, DrawOp, DrawView, HIGHLIGHT, PLAIN};
use crate::client::draw::{
    chat_fits, chat_rows, check_chat_fits, check_chunk_fits, check_others_fit, chunk_fits, covers,
    extends, map_ops, others_fit, others_ops, push_chat_ops, push_map_ops, push_others_ops, within,
};
use crate::integer::{ceil_div, div_ceil, div_floor, floor_div};
use crate::shared::game::map::{Chunk, CHUNK_SIZE, CHUNK_SIZE_I32};
use vstd::utf8::encode_utf8;
use crate::shared::actors::{Actors, PointActor};
use crate::shared::events::{AuthEvent, ChatEvent, Events, KeyCommand};
use crate::shared::shared_behaviour::{moved_x, moved_y, process_command};
use crate::shared::game::map::WorldMap;
use crate::text::{
    colon_count, count_colons_up_to_two, decimal, decimal_digits, push_decimal, push_decimal_digits,
    string_pop, string_push,
};

verus! {

/// The port of the game server, used where the address names none.
pub const SERVER_PORT: u16 = 14191;

/// How often the client tells the server it is still there, in seconds.
pub const HEARTBEAT_SECS: u64 = 2;

/// How long the client waits for the server before it counts the
/// connection as lost, in seconds.
pub const DISCONNECTION_TIMEOUT_SECS: u64 = 10000;

/// What the caller needs to open a connection: the address, the timings,
/// and the credentials to present.
pub struct ConnectRequest {
    pub address: String,
    pub heartbeat_secs: u64,
    pub disconnection_timeout_secs: u64,
    pub auth: AuthEvent,
}

/// `r` opens a connection to `addr` with the client's timings, presenting
/// the user `charlie` with the password `12345`.
pub open spec fn request_for(r: ConnectRequest, addr: Seq<char>) -> bool {
    &&& r.address@ == addr
    &&& r.heartbeat_secs == HEARTBEAT_SECS
    &&& r.disconnection_timeout_secs == DISCONNECTION_TIMEOUT_SECS
    &&& r.auth.username@ == "charlie"@
    &&& r.auth.password@ == "12345"@
}

/// While the chat is open, typed characters go into its text field.
pub open spec fn chat_captures_typing(a: App) -> bool {
    a.chat_open ==> a.menu_eaten
}

/// `after` is `before` with lines appended at its end, maybe none.
pub open spec fn log_extends(before: Seq<String>, after: Seq<String>) -> bool {
    &&& before.len() <= after.len()
    &&& after.subrange(0, before.len() as int) == before
}

/// The client's state between frames.
pub struct App {
    /// Whether a connection to a server was set up (the connection itself
    /// is held by the caller).
    pub has_client: bool,
    pub pawn_key: Option<u16>,
    pub queued_command: Option<KeyCommand>,
    pub map: Option<WorldMap>,
    pub player_x: i32,
    pub player_y: i32,
    pub menu_counter: u8,
    pub menu_space: u8,
    pub menu_state: MenuState,
    pub menu_eaten: bool,
    pub menu_idx: u8,
    pub menu_press: bool,
    pub menu_unpress: bool,
    pub menu_text: String,
    pub chat_open: bool,
    pub chat_msg: Option<String>,
    pub chat_log: Vec<String>,
    /// Whether typed characters are logged.
    pub debug_keys: bool,
    pub ip: String,
    pub ss: (i32, i32),
    pub paused: bool,
}

/// What a typed character reads and changes of the client's state.
pub struct KeyState {
    pub paused: bool,
    pub menu_state: MenuState,
    pub menu_eaten: bool,
    pub menu_unpress: bool,
    pub menu_press: bool,
    pub menu_idx: u8,
    pub menu_text: Seq<char>,
    pub chat_open: bool,
    pub chat_msg: Option<Seq<char>>,
    pub debug_keys: bool,
    pub queued_command: Option<KeyCommand>,
}

/// The keys: escape, enter, space, backspace, `k`, and `w`, `s`, `a`, `d`.
pub open spec fn is_key(chr: char, code: u32) -> bool {
    chr as u32 == code
}

/// The first step of a typed character: what the key itself does.
pub open spec fn key_action(k: KeyState, chr: char) -> KeyState {
    if is_key(chr, 27) {
        // escape: pause or resume, leave any text field, close the chat
        KeyState {
            paused: !k.paused,
            menu_eaten: false,
            menu_unpress: k.menu_unpress || k.menu_eaten,
            menu_text: if k.chat_open {
                Seq::empty()
            } else {
                k.menu_text
            },
            chat_open: false,
            ..k
        }
    } else if is_key(chr, 107) {
        // k: toggle the logging of keys
        KeyState { debug_keys: !k.debug_keys, ..k }
    } else if is_key(chr, 32) {
        // space: press the selected menu item
        if k.menu_state != MenuState::Game && !k.menu_eaten {
            KeyState { menu_press: true, ..k }
        } else {
            k
        }
    } else if is_key(chr, 10) {
        // enter: press the selected menu item, or in the game open the
        // chat, or send what was typed and close it
        if k.menu_state != MenuState::Game {
            if !k.menu_eaten {
                KeyState { menu_press: true, ..k }
            } else {
                k
            }
        } else {
            KeyState {
                chat_msg: if k.chat_open {
                    Some(k.menu_text)
                } else {
                    k.chat_msg
                },
                menu_text: if k.chat_open {
                    Seq::empty()
                } else {
                    k.menu_text
                },
                chat_open: !k.chat_open,
                menu_eaten: !k.chat_open,
                ..k
            }
        }
    } else {
        k
    }
}

/// The second step: outside the game, and outside a text field, `s` and
/// `w` move the menu selection down and up.
pub open spec fn key_select(k: KeyState, chr: char) -> KeyState {
    if k.menu_state != MenuState::Game && !k.menu_eaten {
        KeyState {
            menu_idx: k.menu_idx.saturating_add(
                if is_key(chr, 115) {
                    1u8
                } else {
                    0u8
                },
            ).saturating_sub(
                if is_key(chr, 119) {
                    1u8
                } else {
                    0u8
                },
            ),
            ..k
        }
    } else {
        k
    }
}

/// The third step: inside a text field, backspace removes the last
/// character, enter leaves the field (unless the chat is open), and any
/// other character is added.
pub open spec fn key_text(k: KeyState, chr: char) -> KeyState {
    if k.menu_eaten {
        if is_key(chr, 8) {
            KeyState {
                menu_text: if k.menu_text.len() > 0 {
                    k.menu_text.drop_last()
                } else {
                    k.menu_text
                },
                ..k
            }
        } else if is_key(chr, 10) {
            if !k.chat_open {
                KeyState { menu_eaten: false, menu_unpress: true, ..k }
            } else {
                k
            }
        } else {
            KeyState { menu_text: k.menu_text.push(chr), ..k }
        }
    } else {
        k
    }
}

/// The last step: a movement key queues the command that holds it.
pub open spec fn key_move(k: KeyState, chr: char) -> KeyState {
    let w = is_key(chr, 119);
    let s = is_key(chr, 115);
    let a = is_key(chr, 97);
    let d = is_key(chr, 100);
    if w || s || a || d {
        KeyState { queued_command: Some(KeyCommand { w, s, a, d }), ..k }
    } else {
        k
    }
}

/// The state after the character `chr` was typed in state `k`.
pub open spec fn after_key(k: KeyState, chr: char) -> KeyState {
    key_move(key_text(key_select(key_action(k, chr), chr), chr), chr)
}

/// The address the client connects to for what was typed: an address with
/// no colon gets the server's port, one with a single colon is kept, and
/// anything else gives none.
pub open spec fn server_address(ip: Seq<char>) -> Option<Seq<char>> {
    if colon_count(ip) == 0 {
        Some(ip + seq![':'] + decimal_digits(SERVER_PORT as nat))
    } else if colon_count(ip) == 1 {
        Some(ip)
    } else {
        None
    }
}

/// What the connection to the server reports, as the client sees it.
#[derive(Clone, Debug)]
pub enum ClientEvent {
    /// The connection was made.
    Connection,
    /// The connection was lost.
    Disconnection,
    /// The server gave the client the pawn with this key.
    AssignPawn(u16),
    /// The server took the pawn with this key back.
    UnassignPawn(u16),
    /// An actor was created under this key; the actor, where the client
    /// holds one under it.
    CreateActor(u16, Option<Actors>),
    /// A tick of the shared clock.
    Tick,
    /// A command for the pawn with this key, and the pawn where the client
    /// holds one under it.
    Command(u16, Events, Option<Actors>),
    /// An event from the server.
    Event(Events),
    /// Anything else, errors included.
    Other,
}

/// What the client asks the connection to do in reply.
#[derive(Clone, Debug)]
pub enum ClientAction {
    /// Send this command for the pawn with this key.
    SendCommand(u16, KeyCommand),
    /// Send this chat line.
    SendChat(ChatEvent),
    /// The pawn with this key now stands as given.
    UpdatePawn(u16, PointActor),
}

/// `after` is `before` but for the screen and its selection.
pub open spec fn unchanged_but_menu(before: App, after: App) -> bool {
    after == App { menu_state: after.menu_state, menu_idx: after.menu_idx, ..before }
}

/// `after` is `before` but for the pawn key.
pub open spec fn unchanged_but_pawn_key(before: App, after: App) -> bool {
    after == App { pawn_key: after.pawn_key, ..before }
}

/// `after` is `before` but for the map.
pub open spec fn unchanged_but_map(before: App, after: App) -> bool {
    after == App { map: after.map, ..before }
}

/// `after` is `before` but for the queued command and the pending chat line.
pub open spec fn unchanged_but_outbox(before: App, after: App) -> bool {
    after == App { queued_command: after.queued_command, chat_msg: after.chat_msg, ..before }
}

/// `after` is `before` but for the player's position.
pub open spec fn unchanged_but_player(before: App, after: App) -> bool {
    after == App { player_x: after.player_x, player_y: after.player_y, ..before }
}

/// `after` is `before` but for the chat log.
pub open spec fn unchanged_but_chat_log(before: App, after: App) -> bool {
    after == App { chat_log: after.chat_log, ..before }
}

/// What drawing the menus reads and changes of the client's state.
pub struct MenuView {
    pub state: MenuState,
    /// The number of selectable items drawn so far in this frame.
    pub counter: u8,
    /// The blank rows left so far in this frame.
    pub space: u8,
    /// The selected item.
    pub idx: u8,
    /// Whether the selected item was pressed.
    pub press: bool,
    /// Whether a text field was just left.
    pub unpress: bool,
    /// Whether typed characters go into a text field.
    pub eaten: bool,
    /// The text typed so far.
    pub text: Seq<char>,
    /// The address field.
    pub ip: Seq<char>,
    /// Whether a connection was set up.
    pub has_client: bool,
}

/// The row of the next item.
pub open spec fn item_row(m: MenuView) -> i32 {
    (m.counter + m.space) as i32
}

/// Shows screen `state`, with its first item selected.
pub open spec fn change_screen(m: MenuView, state: MenuState) -> MenuView {
    MenuView { state, idx: 0, ..m }
}

/// A button labelled `txt`: highlighted where selected; a selected button
/// that was pressed reports the press and is not drawn this frame.
pub open spec fn button(m: MenuView, txt: Seq<char>) -> (MenuView, Seq<DrawView>, bool) {
    if m.counter == m.idx && m.press {
        (MenuView { press: false, ..m }, seq![DrawView::ColorPair(HIGHLIGHT)], true)
    } else {
        (
            MenuView { counter: (m.counter + 1) as u8, ..m },
            seq![
                DrawView::ColorPair(
                    if m.counter == m.idx {
                        HIGHLIGHT
                    } else {
                        PLAIN
                    },
                ),
                DrawView::Text(item_row(m), 0, txt),
            ],
            false,
        )
    }
}

/// A label with the text `txt`, on the row of the next item.
pub open spec fn label(m: MenuView, txt: Seq<char>) -> Seq<DrawView> {
    seq![DrawView::ColorPair(PLAIN), DrawView::Text(item_row(m), 0, txt)]
}

/// The label's length in bytes as an `i32`, cut to the low 32 bits as
/// `as i32` does.
pub open spec fn label_width(lbl: Seq<char>) -> i32 {
    encode_utf8(lbl).len() as usize as i32
}

/// A text field with the label `lbl` showing `value`: where selected, a
/// press enters the field, and inside the field it shows what is typed.
/// It gives back what it shows; an empty value shows as three blanks.
pub open spec fn input(m: MenuView, lbl: Seq<char>, value: Seq<char>) -> (MenuView, Seq<DrawView>, Seq<char>) {
    let selected = m.counter == m.idx;
    let m1 = if selected {
        MenuView { press: false, unpress: false, eaten: m.eaten || m.press, ..m }
    } else {
        m
    };
    let shown = if selected && m1.eaten {
        m.text
    } else {
        value
    };
    (
        MenuView { counter: (m.counter + 1) as u8, ..m1 },
        seq![
            DrawView::ColorPair(
                if selected {
                    HIGHLIGHT
                } else {
                    PLAIN
                },
            ),
            DrawView::Text(m.counter as i32, 0, lbl),
            DrawView::ColorPair(
                if m1.eaten && selected {
                    HIGHLIGHT
                } else {
                    PLAIN
                },
            ),
            DrawView::Text(
                item_row(m),
                (1 + label_width(lbl)) as i32,
                if shown.len() == 0 {
                    seq![' ', ' ', ' ']
                } else {
                    shown
                },
            ),
        ],
        shown,
    )
}

/// `after` is `before` but for what `MenuView` holds.
pub open spec fn same_world(before: App, after: App) -> bool {
    &&& after.pawn_key == before.pawn_key
    &&& after.queued_command == before.queued_command
    &&& after.map == before.map
    &&& after.player_x == before.player_x
    &&& after.player_y == before.player_y
    &&& after.chat_open == before.chat_open
    &&& after.chat_msg == before.chat_msg
    &&& after.chat_log == before.chat_log
    &&& after.debug_keys == before.debug_keys
    &&& after.ss == before.ss
    &&& after.paused == before.paused
}

/// The main menu: a button to connect, which leads to the address screen,
/// and a button to exit.
pub open spec fn main_screen(m: MenuView) -> (MenuView, Seq<DrawView>) {
    let (m1, o1, pressed) = button(m, "CONNECT"@);
    let m2 = if pressed {
        change_screen(m1, MenuState::Connect)
    } else {
        m1
    };
    let (m3, o2, _exit) = button(m2, "EXIT"@);
    (m3, o1 + o2)
}

/// The address screen: the address field, a button that connects to the
/// address typed there and leads to the waiting screen, a blank row, and a
/// button back to this same screen. It gives the address to connect to,
/// where the connect button was pressed and the typed address makes one
/// (see `server_address`).
pub open spec fn connect_screen(m: MenuView) -> (MenuView, Seq<DrawView>, Option<Seq<char>>) {
    let (m1, o1, typed) = input(m, "IP:"@, m.ip);
    let m1 = MenuView { ip: typed, ..m1 };
    let (m2, o2, pressed) = button(m1, "CONNECT"@);
    let addr = if pressed {
        server_address(typed)
    } else {
        None
    };
    let m3 = if pressed {
        change_screen(
            MenuView { has_client: m2.has_client || addr is Some, ..m2 },
            MenuState::Connecting,
        )
    } else {
        m2
    };
    let m4 = MenuView { space: (m3.space + 1) as u8, ..m3 };
    let (m5, o3, back) = button(m4, "BACK"@);
    let m6 = if back {
        change_screen(m5, MenuState::Connect)
    } else {
        m5
    };
    (m6, o1 + o2 + o3, addr)
}

/// The waiting screen: with a connection set up, a smile once it is made,
/// and until then a waiting label, a blank row and a button that drops the
/// connection and goes back to the address screen. It tells whether the
/// connection is to be dropped.
pub open spec fn connecting_screen(m: MenuView, connected: bool) -> (MenuView, Seq<DrawView>, bool) {
    if m.has_client {
        if connected {
            (m, label(m, ":)"@), false)
        } else {
            let o1 = label(m, "CONNECTING..."@);
            let m1 = MenuView { space: (m.space + 1) as u8, ..m };
            let (m2, o2, cancel) = button(m1, "CANCEL"@);
            if cancel {
                (
                    MenuView { has_client: false, state: MenuState::Connect, idx: 0, ..m2 },
                    o1 + o2,
                    true,
                )
            } else {
                (m2, o1 + o2, false)
            }
        }
    } else {
        (m, seq![], false)
    }
}

/// The end of a frame: the item count, the blank rows and the press and
/// release of this frame are cleared.
pub open spec fn end_frame(m: MenuView) -> MenuView {
    MenuView { counter: 0, space: 0, unpress: false, press: false, ..m }
}

/// The screen column (or row) of the player, the middle of a screen
/// `size` cells wide (or high).
pub open spec fn center(size: i32) -> int {
    floor_div(size as int, 2)
}

/// The map column at the left edge of the screen: the player stands in the
/// middle.
pub open spec fn camera_x(a: App) -> int {
    a.player_x - center(a.ss.0)
}

/// The map row at the top edge of the screen.
pub open spec fn camera_y(a: App) -> int {
    a.player_y - center(a.ss.1)
}

/// The chunk that holds the screen's first column (or row) `cam`.
pub open spec fn first_chunk(cam: int) -> int {
    floor_div(cam, CHUNK_SIZE as int)
}

/// How many chunks are drawn across a screen `size` cells wide: enough to
/// cover it from any starting offset.
pub open spec fn chunk_span(size: i32) -> int {
    ceil_div(size as int, CHUNK_SIZE as int) + 1
}

/// `chunk_span`, where it is positive, and zero otherwise.
pub open spec fn chunk_count(size: i32) -> nat {
    if chunk_span(size) > 0 {
        chunk_span(size) as nat
    } else {
        0
    }
}

/// The line that reports the screen size, `width,height`.
pub open spec fn size_line(ss: (i32, i32)) -> Seq<char> {
    decimal(ss.0 as int) + seq![','] + decimal(ss.1 as int)
}

/// The steps that draw what a made connection shows: the map chunks
/// around the player (read from `chunks`), the player as an `@` in the
/// middle, and the other actors.
pub open spec fn connected_ops(a: App, chunks: Map<(i32, i32), Chunk>, others: Seq<(u16, PointActor)>) -> Seq<DrawView> {
    (if a.map is Some {
        map_ops(
            chunks,
            first_chunk(camera_x(a)),
            first_chunk(camera_y(a)),
            chunk_count(a.ss.0),
            chunk_count(a.ss.1),
            camera_x(a),
            camera_y(a),
        )
    } else {
        seq![]
    }) + seq![
        DrawView::ColorPair(HIGHLIGHT),
        DrawView::Plot(center(a.ss.0) as i32, center(a.ss.1) as i32, '@'),
    ] + others_ops(others, a.pawn_key.unwrap_or(0), camera_x(a), camera_y(a))
}

/// The steps that draw the world, where a connection was set up: once it
/// is made, the map chunks around the player (read from `chunks`), the
/// player as an `@` in the middle, and the other actors; then the
/// frame-time line and the screen size.
pub open spec fn world_ops(
    a: App,
    chunks: Map<(i32, i32), Chunk>,
    connected: bool,
    others: Seq<(u16, PointActor)>,
) -> Seq<DrawView> {
    if !a.has_client {
        seq![]
    } else {
        (if connected {
            connected_ops(a, chunks, others)
        } else {
            seq![]
        }) + seq![DrawView::FrameTime(0, 0), DrawView::Text(1, 0, size_line(a.ss))]
    }
}

/// The last ten chat lines, or all of them where there are fewer.
pub open spec fn recent_chat(log: Seq<String>) -> Seq<String> {
    let n = if log.len() < 10 {
        log.len()
    } else {
        10
    };
    log.subrange(log.len() - n, log.len() as int)
}

/// The steps that write the recent chat lines, from eleven rows above the
/// bottom of the screen down.
pub open spec fn chat_ops(a: App) -> Seq<DrawView> {
    if a.chat_log@.len() > 0 {
        chat_rows(recent_chat(a.chat_log@), a.ss.0, a.ss.1 - 11, 0)
    } else {
        seq![]
    }
}

/// The steps that draw the game screen: the world, the text being typed on
/// the bottom row, and the recent chat.
pub open spec fn game_ops(
    a: App,
    chunks: Map<(i32, i32), Chunk>,
    connected: bool,
    others: Seq<(u16, PointActor)>,
) -> Seq<DrawView> {
    world_ops(a, chunks, connected, others) + seq![
        DrawView::Text((a.ss.1 - 1) as i32, 0, a.menu_text@),
    ] + chat_ops(a)
}

/// Whether drawing the game screen draws the map.
pub open spec fn draws_map(a: App, connected: bool) -> bool {
    a.has_client && connected && a.map is Some
}

/// The chunks to draw along one axis, starting from the screen's first
/// column (or row) `cam` on a screen `size` cells wide, keep their bounds
/// and every screen position in an `i32`.
pub open spec fn map_fits(cam: int, size: i32) -> bool {
    let s = first_chunk(cam);
    &&& i32::MIN <= s + ceil_div(size as int, CHUNK_SIZE as int) <= i32::MAX
    &&& s + chunk_span(size) <= i32::MAX
    &&& chunk_span(size) > 0 ==> chunk_fits(s, cam) && chunk_fits(s + chunk_span(size) - 1, cam)
}

/// Tells whether `map_fits(cam, size)` holds.
fn check_map_fits(cam: i32, size: i32) -> (ok: bool)
    ensures
        ok == map_fits(cam as int, size),
{
    let s = div_floor(cam, CHUNK_SIZE_I32) as i64;
    let c = div_ceil(size, CHUNK_SIZE_I32) as i64;
    if s + c < i32::MIN as i64 || s + c > i32::MAX as i64 || s + c + 1 > i32::MAX as i64 {
        return false;
    }
    if c + 1 > 0 {
        check_chunk_fits(s, cam as i64) && check_chunk_fits(s + c, cam as i64)
    } else {
        true
    }
}

/// Drawing the game screen keeps every number in an `i32` and divides only
/// where it may.
pub open spec fn game_fits(a: App, connected: bool, others: Seq<(u16, PointActor)>) -> bool {
    &&& a.ss.1 > i32::MIN
    &&& a.chat_log@.len() > 0 ==> a.ss.1 - 11 >= i32::MIN && chat_fits(
        recent_chat(a.chat_log@),
        a.ss.0,
        a.ss.1 - 11,
        0,
    )
    &&& a.has_client && connected ==> {
        &&& i32::MIN <= camera_x(a) <= i32::MAX
        &&& i32::MIN <= camera_y(a) <= i32::MAX
        &&& others_fit(others, a.pawn_key.unwrap_or(0), camera_x(a), camera_y(a))
        &&& a.map is Some ==> map_fits(camera_x(a), a.ss.0) && map_fits(camera_y(a), a.ss.1)
    }
}

/// The chunks of a map, or none.
pub open spec fn chunks_of(map: Option<WorldMap>) -> Map<(i32, i32), Chunk> {
    match map {
        Some(m) => m.chunks(),
        None => Map::empty(),
    }
}

/// `after` is the map of `a` with the chunks that the game screen shows
/// generated where they were missing: the same seed, every chunk it had
/// kept, every shown chunk present, and no other chunk added.
pub open spec fn map_grown(a: App, after: Option<WorldMap>) -> bool {
    match (a.map, after) {
        (Some(m0), Some(m1)) => {
            let sx = first_chunk(camera_x(a));
            let sy = first_chunk(camera_y(a));
            let nx = chunk_count(a.ss.0) as int;
            let ny = chunk_count(a.ss.1) as int;
            &&& m1.spec_seed() == m0.spec_seed()
            &&& extends(m1.chunks(), m0.chunks())
            &&& covers(m1.chunks(), sx, sy, nx, ny)
            &&& within(m1.chunks(), m0.chunks(), sx, sy, nx, ny)
        },
        _ => false,
    }
}

/// What drawing a frame gives the caller.
pub struct UiFrame {
    /// The steps to draw, in order.
    pub ops: Vec<DrawOp>,
    /// The connection to open, if any.
    pub connect_to: Option<ConnectRequest>,
    /// Whether to drop the connection.
    pub drop_client: bool,
}

impl App {
    /// What drawing the menus reads and changes.
    pub open spec fn menu_view(&self) -> MenuView {
        MenuView {
            state: self.menu_state,
            counter: self.menu_counter,
            space: self.menu_space,
            idx: self.menu_idx,
            press: self.menu_press,
            unpress: self.menu_unpress,
            eaten: self.menu_eaten,
            text: self.menu_text@,
            ip: self.ip@,
            has_client: self.has_client,
        }
    }

    /// Draws a button (see `button`) and tells whether it was pressed.
    fn draw_button(&mut self, ops: &mut Vec<DrawOp>, txt: &str) -> (pressed: bool)
        requires
            old(self).menu_counter < 255 || (old(self).menu_counter == old(self).menu_idx
                && old(self).menu_press),
        ensures
            ({
                let (m, o, p) = button(old(self).menu_view(), txt@);
                &&& final(self).menu_view() == m
                &&& ops_view(final(ops)@) == ops_view(old(ops)@) + o
                &&& pressed == p
            }),
            same_world(*old(self), *final(self)),
    {
        let ghost before = ops_view(ops@);
        if self.menu_counter == self.menu_idx {
            push_op(ops, DrawOp::ColorPair(HIGHLIGHT));
            if self.menu_press {
                self.menu_press = false;
                assert(ops_view(ops@) =~= before + button(old(self).menu_view(), txt@).1);
                return true;
            }
        } else {
            push_op(ops, DrawOp::ColorPair(PLAIN));
        }
        let row = self.menu_counter as i32 + self.menu_space as i32;
        push_op(ops, DrawOp::Text(row, 0, txt.to_string()));
        self.menu_counter = self.menu_counter + 1;
        assert(ops_view(ops@) =~= before + button(old(self).menu_view(), txt@).1);
        false
    }

    /// Draws a label (see `label`).
    fn draw_label(&self, ops: &mut Vec<DrawOp>, txt: &str)
        ensures
            ops_view(final(ops)@) == ops_view(old(ops)@) + label(self.menu_view(), txt@),
    {
        let ghost before = ops_view(ops@);
        push_op(ops, DrawOp::ColorPair(PLAIN));
        let row = self.menu_counter as i32 + self.menu_space as i32;
        push_op(ops, DrawOp::Text(row, 0, txt.to_string()));
        assert(ops_view(ops@) =~= before + label(self.menu_view(), txt@));
    }

    /// Draws a text field (see `input`) and gives back what it shows.
    fn draw_input(&mut self, ops: &mut Vec<DrawOp>, lbl: &str, value: &str) -> (shown: String)
        requires
            old(self).menu_counter < 255,
            label_width(lbl@) < i32::MAX,
        ensures
            ({
                let (m, o, t) = input(old(self).menu_view(), lbl@, value@);
                &&& final(self).menu_view() == m
                &&& ops_view(final(ops)@) == ops_view(old(ops)@) + o
                &&& shown@ == t
            }),
            same_world(*old(self), *final(self)),
    {
        let ghost before = ops_view(ops@);
        let selected = self.menu_counter == self.menu_idx;
        let shown: String;
        if selected {
            push_op(ops, DrawOp::ColorPair(HIGHLIGHT));
            if self.menu_press {
                self.menu_press = false;
                self.menu_eaten = true;
            }
            if self.menu_unpress {
                self.menu_unpress = false;
            }
            if self.menu_eaten {
                shown = self.menu_text.clone();
            } else {
                shown = value.to_string();
            }
        } else {
            push_op(ops, DrawOp::ColorPair(PLAIN));
            shown = value.to_string();
        }
        push_op(ops, DrawOp::Text(self.menu_counter as i32, 0, lbl.to_string()));
        if self.menu_eaten && selected {
            push_op(ops, DrawOp::ColorPair(HIGHLIGHT));
        } else {
            push_op(ops, DrawOp::ColorPair(PLAIN));
        }
        let row = self.menu_counter as i32 + self.menu_space as i32;
        let col = 1 + #[verifier::truncate] (lbl.len() as i32);
        if shown.as_str().is_empty() {
            let blanks = "   ";
            proof {
                reveal_strlit("   ");
            }
            assert(blanks@ =~= seq![' ', ' ', ' ']);
            push_op(ops, DrawOp::Text(row, col, blanks.to_string()));
        } else {
            push_op(ops, DrawOp::Text(row, col, shown.clone()));
        }
        self.menu_counter = self.menu_counter + 1;
        assert(ops_view(ops@) =~= before + input(old(self).menu_view(), lbl@, value@).1);
        shown
    }

    /// What a typed character reads and changes.
    pub open spec fn key_state(&self) -> KeyState {
        KeyState {
            paused: self.paused,
            menu_state: self.menu_state,
            menu_eaten: self.menu_eaten,
            menu_unpress: self.menu_unpress,
            menu_press: self.menu_press,
            menu_idx: self.menu_idx,
            menu_text: self.menu_text@,
            chat_open: self.chat_open,
            chat_msg: match self.chat_msg {
                Some(m) => Some(m@),
                None => None,
            },
            debug_keys: self.debug_keys,
            queued_command: self.queued_command,
        }
    }

    /// The client as it starts: on the main menu, not connected, with no
    /// map, no text and no chat.
    pub fn new() -> (a: App)
        ensures
            chat_captures_typing(a),
            !a.has_client,
            a.pawn_key is None,
            a.queued_command is None,
            a.map is None,
            a.player_x == 0,
            a.player_y == 0,
            a.menu_counter == 0,
            a.menu_space == 0,
            a.menu_state == MenuState::Main,
            !a.menu_eaten,
            a.menu_idx == 0,
            !a.menu_press,
            !a.menu_unpress,
            a.menu_text@ == Seq::<char>::empty(),
            !a.chat_open,
            a.chat_msg is None,
            a.chat_log@ == Seq::<String>::empty(),
            !a.debug_keys,
            a.ip@ == Seq::<char>::empty(),
            a.ss == (0i32, 0i32),
            !a.paused,
    {
        App {
            has_client: false,
            pawn_key: None,
            queued_command: None,
            map: None,
            player_x: 0,
            player_y: 0,
            menu_counter: 0,
            menu_space: 0,
            menu_state: MenuState::Main,
            menu_eaten: false,
            menu_idx: 0,
            menu_press: false,
            menu_unpress: false,
            menu_text: String::new(),
            chat_open: false,
            chat_msg: None,
            chat_log: Vec::new(),
            debug_keys: false,
            ip: String::new(),
            ss: (0, 0),
            paused: false,
        }
    }

    /// Reacts to the typed character `chr` (see `after_key`). Nothing but
    /// what `KeyState` holds changes.
    pub fn handle_key(&mut self, chr: char)
        ensures
            chat_captures_typing(*old(self)) ==> chat_captures_typing(*final(self)),
            log_extends(old(self).chat_log@, final(self).chat_log@),
            final(self).key_state() == after_key(old(self).key_state(), chr),
            final(self).has_client == old(self).has_client,
            final(self).pawn_key == old(self).pawn_key,
            final(self).map == old(self).map,
            final(self).player_x == old(self).player_x,
            final(self).player_y == old(self).player_y,
            final(self).menu_counter == old(self).menu_counter,
            final(self).menu_space == old(self).menu_space,
            final(self).chat_log == old(self).chat_log,
            final(self).ip == old(self).ip,
            final(self).ss == old(self).ss,
    {
        let ghost k0 = self.key_state();
        let code = chr as u32;
        let mut w = false;
        let mut s = false;
        let mut a = false;
        let mut d = false;
        if code == 27 {
            self.paused = !self.paused;
            if self.menu_eaten {
                self.menu_eaten = false;
                self.menu_unpress = true;
            }
            if self.chat_open {
                self.menu_text = String::new();
            }
            self.chat_open = false;
        } else if code == 119 {
            w = true;
        } else if code == 115 {
            s = true;
        } else if code == 97 {
            a = true;
        } else if code == 100 {
            d = true;
        } else if code == 107 {
            self.debug_keys = !self.debug_keys;
        } else if code == 32 {
            if self.menu_state != MenuState::Game && !self.menu_eaten {
                self.menu_press = true;
            }
        } else if code == 10 {
            if self.menu_state != MenuState::Game {
                if !self.menu_eaten {
                    self.menu_press = true;
                }
            } else {
                if self.chat_open {
                    self.chat_msg = Some(self.menu_text.clone());
                    self.menu_text = String::new();
                }
                self.chat_open = !self.chat_open;
                self.menu_eaten = self.chat_open;
            }
        }
        assert(self.key_state() == key_action(k0, chr));
        if self.menu_state != MenuState::Game && !self.menu_eaten {
            self.menu_idx = self.menu_idx.saturating_add(s as u8);
            self.menu_idx = self.menu_idx.saturating_sub(w as u8);
        }
        assert(self.key_state() == key_select(key_action(k0, chr), chr));
        if self.menu_eaten {
            if code == 8 {
                string_pop(&mut self.menu_text);
            } else if code == 10 {
                if !self.chat_open {
                    self.menu_eaten = false;
                    self.menu_unpress = true;
                }
            } else {
                string_push(&mut self.menu_text, chr);
            }
        }
        assert(self.key_state() == key_text(key_select(key_action(k0, chr), chr), chr));
        if w || s || a || d {
            self.queued_command = Some(KeyCommand::new(w, s, a, d));
        }
        assert(self.chat_log@.subrange(0, old(self).chat_log@.len() as int) =~= old(self).chat_log@);
    }

    /// Works out the connection to open from what was typed: the address
    /// (see `server_address`), the client's timings, and the credentials
    /// (see `request_for`). Where there is an address, the client counts as
    /// set up (the caller then opens the connection, dropping any earlier
    /// one); otherwise nothing changes.
    pub fn connect(&mut self, ip: &str) -> (request: Option<ConnectRequest>)
        ensures
            match request {
                Some(r) => server_address(ip@) == Some(r.address@) && request_for(r, r.address@),
                None => server_address(ip@) is None,
            },
            *final(self) == (App { has_client: old(self).has_client || request is Some, ..*old(self) }),
    {
        let colons = count_colons_up_to_two(ip);
        let address;
        if colons == 0 {
            let mut a = ip.to_string();
            string_push(&mut a, ':');
            push_decimal_digits(&mut a, SERVER_PORT as u64);
            address = a;
        } else if colons == 1 {
            address = ip.to_string();
        } else {
            return None;
        }
        self.has_client = true;
        Some(
            ConnectRequest {
                address,
                heartbeat_secs: HEARTBEAT_SECS,
                disconnection_timeout_secs: DISCONNECTION_TIMEOUT_SECS,
                auth: AuthEvent::new("charlie", "12345"),
            },
        )
    }

    /// Reacts to what the connection reports: the screen follows the
    /// connection, the pawn key follows the server, a world actor gives a
    /// fresh map from its seed, a tick sends the queued command and the
    /// pending chat line (where the client has a pawn), a key command moves
    /// the pawn, and a chat event is added to the chat log.
    pub fn handle_client_event(&mut self, event: ClientEvent) -> (actions: Vec<ClientAction>)
        ensures
            chat_captures_typing(*old(self)) ==> chat_captures_typing(*final(self)),
            log_extends(old(self).chat_log@, final(self).chat_log@),
            final(self).has_client == old(self).has_client,
            final(self).menu_counter == old(self).menu_counter,
            final(self).menu_space == old(self).menu_space,
            final(self).menu_eaten == old(self).menu_eaten,
            final(self).menu_press == old(self).menu_press,
            final(self).menu_unpress == old(self).menu_unpress,
            final(self).menu_text == old(self).menu_text,
            final(self).chat_open == old(self).chat_open,
            final(self).debug_keys == old(self).debug_keys,
            final(self).ip == old(self).ip,
            final(self).ss == old(self).ss,
            final(self).paused == old(self).paused,
            match event {
                ClientEvent::Connection => {
                    &&& final(self).menu_state == MenuState::Game
                    &&& final(self).menu_idx == 0
                    &&& unchanged_but_menu(*old(self), *final(self))
                    &&& actions@.len() == 0
                },
                ClientEvent::Disconnection => {
                    &&& final(self).menu_state == MenuState::Connect
                    &&& final(self).menu_idx == 0
                    &&& unchanged_but_menu(*old(self), *final(self))
                    &&& actions@.len() == 0
                },
                ClientEvent::AssignPawn(k) => {
                    &&& final(self).pawn_key == Some(k)
                    &&& unchanged_but_pawn_key(*old(self), *final(self))
                    &&& actions@.len() == 0
                },
                ClientEvent::UnassignPawn(_) => {
                    &&& final(self).pawn_key is None
                    &&& unchanged_but_pawn_key(*old(self), *final(self))
                    &&& actions@.len() == 0
                },
                ClientEvent::CreateActor(_, Some(Actors::WorldActor(w))) => {
                    &&& final(self).map matches Some(m) && m.spec_seed() == w.seed && m.chunks().is_empty()
                    &&& unchanged_but_map(*old(self), *final(self))
                    &&& actions@.len() == 0
                },
                ClientEvent::Tick => {
                    &&& unchanged_but_outbox(*old(self), *final(self))
                    &&& match old(self).pawn_key {
                        Some(k) => {
                            &&& final(self).queued_command is None
                            &&& final(self).chat_msg is None
                            &&& actions@.len() == (if old(self).queued_command is Some {
                                1int
                            } else {
                                0int
                            }) + (if old(self).chat_msg is Some {
                                1int
                            } else {
                                0int
                            })
                            &&& old(self).queued_command matches Some(c) ==> actions@[0]
                                == ClientAction::SendCommand(k, c)
                            &&& old(self).chat_msg matches Some(m) ==> actions@.last() matches ClientAction::SendChat(e)
                                && e.body@ == m@
                        },
                        None => {
                            &&& final(self).queued_command == old(self).queued_command
                            &&& final(self).chat_msg == old(self).chat_msg
                            &&& actions@.len() == 0
                        },
                    }
                },
                ClientEvent::Command(k, Events::KeyCommand(c), Some(Actors::PointActor(p))) => {
                    let moved = PointActor { x: moved_x(c, p.x), y: moved_y(c, p.y), color: p.color };
                    &&& final(self).player_x == moved.x
                    &&& final(self).player_y == moved.y
                    &&& unchanged_but_player(*old(self), *final(self))
                    &&& actions@ == seq![ClientAction::UpdatePawn(k, moved)]
                },
                ClientEvent::Event(Events::ChatEvent(e)) => {
                    &&& final(self).chat_log@ == old(self).chat_log@.push(e.body)
                    &&& unchanged_but_chat_log(*old(self), *final(self))
                    &&& actions@.len() == 0
                },
                _ => {
                    &&& *final(self) == *old(self)
                    &&& actions@.len() == 0
                },
            },
    {
        let mut actions: Vec<ClientAction> = Vec::new();
        match event {
            ClientEvent::Connection => {
                self.menu_state = MenuState::Game;
                self.menu_idx = 0;
            },
            ClientEvent::Disconnection => {
                self.menu_state = MenuState::Connect;
                self.menu_idx = 0;
            },
            ClientEvent::AssignPawn(k) => {
                self.pawn_key = Some(k);
            },
            ClientEvent::UnassignPawn(_) => {
                self.pawn_key = None;
            },
            ClientEvent::CreateActor(_, actor) => {
                if let Some(Actors::WorldActor(w)) = actor {
                    self.map = Some(WorldMap::new(w.seed));
                }
            },
            ClientEvent::Tick => {
                if let Some(k) = self.pawn_key {
                    if let Some(c) = self.queued_command.take() {
                        actions.push(ClientAction::SendCommand(k, c));
                    }
                    if let Some(m) = self.chat_msg.take() {
                        actions.push(ClientAction::SendChat(ChatEvent::new(m.as_str())));
                    }
                }
            },
            ClientEvent::Command(k, command, pawn) => {
                if let Events::KeyCommand(c) = command {
                    if let Some(Actors::PointActor(p)) = pawn {
                        let mut p = p;
                        process_command(&c, &mut p);
                        self.player_x = p.x;
                        self.player_y = p.y;
                        actions.push(ClientAction::UpdatePawn(k, p));
                    }
                }
            },
            ClientEvent::Event(e) => {
                if let Events::ChatEvent(e) = e {
                    self.chat_log.push(e.body);
                }
            },
            ClientEvent::Other => {},
        }
        assert(self.chat_log@.subrange(0, old(self).chat_log@.len() as int) =~= old(self).chat_log@);
        actions
    }

    /// Draws what a made connection shows (see `world_ops`): the map
    /// around the player, the player and the other actors, generating the
    /// map chunks that are shown and missing.
    fn draw_connected(&mut self, ops: &mut Vec<DrawOp>, others: &Vec<(u16, PointActor)>)
        requires
            old(self).has_client,
            game_fits(*old(self), true, others@),
        ensures
            ops_view(final(ops)@) == ops_view(old(ops)@) + connected_ops(*old(self), chunks_of(final(self).map), others@),
            *final(self) == (App { map: final(self).map, ..*old(self) }),
            old(self).map is None ==> final(self).map is None,
            old(self).map is Some ==> map_grown(*old(self), final(self).map),
    {
        let ghost base = ops_view(ops@);
        let center_x = div_floor(self.ss.0, 2);
        let center_y = div_floor(self.ss.1, 2);
        let cam_off_x = self.player_x - center_x;
        let cam_off_y = self.player_y - center_y;
        if self.map.is_some() {
            let mut map = self.map.take().unwrap();
            let start_x = div_floor(cam_off_x, CHUNK_SIZE_I32);
            let start_y = div_floor(cam_off_y, CHUNK_SIZE_I32);
            let end_x = start_x + div_ceil(self.ss.0, CHUNK_SIZE_I32) + 1;
            let end_y = start_y + div_ceil(self.ss.1, CHUNK_SIZE_I32) + 1;
            push_map_ops(ops, &mut map, start_x, end_x, start_y, end_y, cam_off_x, cam_off_y);
            self.map = Some(map);
        }
        let ghost mid = ops_view(ops@);
        assert(mid == base + (if old(self).map is Some {
                map_ops(
                    chunks_of(self.map),
                    first_chunk(camera_x(*old(self))),
                    first_chunk(camera_y(*old(self))),
                    chunk_count(old(self).ss.0),
                    chunk_count(old(self).ss.1),
                    camera_x(*old(self)),
                    camera_y(*old(self)),
                )
            } else {
                seq![]
            }));
        push_op(ops, DrawOp::ColorPair(HIGHLIGHT));
        push_op(ops, DrawOp::Plot(center_x, center_y, '@'));
        let skip = match self.pawn_key {
            Some(k) => k,
            None => 0,
        };
        push_others_ops(ops, others, skip, cam_off_x, cam_off_y);
        assert(ops_view(ops@) =~= base + connected_ops(*old(self), chunks_of(self.map), others@));
    }

    /// Draws the world (see `world_ops`), generating the map chunks it
    /// shows that the map lacks.
    fn draw_game(&mut self, ops: &mut Vec<DrawOp>, connected: bool, others: &Vec<(u16, PointActor)>)
        requires
            game_fits(*old(self), connected, others@),
        ensures
            ops_view(final(ops)@) == ops_view(old(ops)@) + world_ops(*old(self), chunks_of(final(self).map), connected, others@),
            *final(self) == (App { map: final(self).map, ..*old(self) }),
            !draws_map(*old(self), connected) ==> final(self).map == old(self).map,
            draws_map(*old(self), connected) ==> map_grown(*old(self), final(self).map),
    {
        let ghost base = ops_view(ops@);
        if self.has_client {
            if connected {
                self.draw_connected(ops, others);
            }
            let ghost mid = ops_view(ops@);
            push_op(ops, DrawOp::FrameTime(0, 0));
            let mut line = String::new();
            push_decimal(&mut line, self.ss.0 as i64);
            string_push(&mut line, ',');
            push_decimal(&mut line, self.ss.1 as i64);
            assert(line@ =~= size_line(old(self).ss));
            push_op(ops, DrawOp::Text(1, 0, line));
            assert(ops_view(ops@) =~= base + world_ops(*old(self), chunks_of(self.map), connected, others@));
        } else {
            assert(ops_view(ops@) =~= base + world_ops(*old(self), chunks_of(self.map), connected, others@));
        }
    }

    /// Draws the main menu (see `main_screen`).
    fn draw_main(&mut self, ops: &mut Vec<DrawOp>)
        requires
            old(self).menu_counter <= 252,
        ensures
            final(self).menu_view() == main_screen(old(self).menu_view()).0,
            ops_view(final(ops)@) == ops_view(old(ops)@) + main_screen(old(self).menu_view()).1,
            same_world(*old(self), *final(self)),
    {
        let ghost base = ops_view(ops@);
        if self.draw_button(ops, "CONNECT") {
            self.change_menu(MenuState::Connect);
        }
        let _exit = self.draw_button(ops, "EXIT");
        assert(ops_view(ops@) =~= base + main_screen(old(self).menu_view()).1);
    }

    /// Draws the address screen (see `connect_screen`) and gives the
    /// address to connect to, if any.
    fn draw_connect(&mut self, ops: &mut Vec<DrawOp>) -> (addr: Option<ConnectRequest>)
        requires
            old(self).menu_counter <= 252,
            old(self).menu_space <= 254,
        ensures
            final(self).menu_view() == connect_screen(old(self).menu_view()).0,
            ops_view(final(ops)@) == ops_view(old(ops)@) + connect_screen(old(self).menu_view()).1,
            match addr {
                Some(a) => connect_screen(old(self).menu_view()).2 == Some(a.address@) && request_for(
                    a,
                    a.address@,
                ),
                None => connect_screen(old(self).menu_view()).2 is None,
            },
            same_world(*old(self), *final(self)),
    {
        let ghost base = ops_view(ops@);
        let mut connect_to: Option<ConnectRequest> = None;
        let ip = self.ip.clone();
        proof {
            reveal_strlit("IP:");
            vstd::utf8::is_ascii_chars_encode_utf8("IP:"@);
        }
        self.ip = self.draw_input(ops, "IP:", ip.as_str());
        if self.draw_button(ops, "CONNECT") {
            let typed = self.ip.clone();
            connect_to = self.connect(typed.as_str());
            self.change_menu(MenuState::Connecting);
        }
        self.menu_space = self.menu_space + 1;
        if self.draw_button(ops, "BACK") {
            self.change_menu(MenuState::Connect);
        }
        assert(ops_view(ops@) =~= base + connect_screen(old(self).menu_view()).1);
        connect_to
    }

    /// Draws the waiting screen (see `connecting_screen`) and tells whether
    /// the connection is to be dropped.
    fn draw_connecting(&mut self, ops: &mut Vec<DrawOp>, connected: bool) -> (drop: bool)
        requires
            old(self).menu_counter <= 252,
            old(self).menu_space <= 254,
        ensures
            final(self).menu_view() == connecting_screen(old(self).menu_view(), connected).0,
            ops_view(final(ops)@) == ops_view(old(ops)@) + connecting_screen(old(self).menu_view(), connected).1,
            drop == connecting_screen(old(self).menu_view(), connected).2,
            same_world(*old(self), *final(self)),
    {
        let ghost base = ops_view(ops@);
        let mut drop = false;
        if self.has_client {
            if connected {
                self.draw_label(ops, ":)");
            } else {
                self.draw_label(ops, "CONNECTING...");
                self.menu_space = self.menu_space + 1;
                if self.draw_button(ops, "CANCEL") {
                    self.has_client = false;
                    drop = true;
                    self.menu_state = MenuState::Connect;
                    self.menu_idx = 0;
                }
            }
        }
        assert(ops_view(ops@) =~= base + connecting_screen(old(self).menu_view(), connected).1);
        drop
    }

    /// Draws the game screen (see `game_ops`), generating the map chunks it
    /// shows that the map lacks.
    fn draw_game_screen(&mut self, ops: &mut Vec<DrawOp>, connected: bool, others: &Vec<(u16, PointActor)>)
        requires
            game_fits(*old(self), connected, others@),
        ensures
            ops_view(final(ops)@) == ops_view(old(ops)@) + game_ops(*old(self), chunks_of(final(self).map), connected, others@),
            *final(self) == (App { map: final(self).map, ..*old(self) }),
            !draws_map(*old(self), connected) ==> final(self).map == old(self).map,
            draws_map(*old(self), connected) ==> map_grown(*old(self), final(self).map),
    {
        let ghost base = ops_view(ops@);
        self.draw_game(ops, connected, others);
        push_op(ops, DrawOp::Text(self.ss.1 - 1, 0, self.menu_text.clone()));
        let len = self.chat_log.len();
        if len > 0 {
            let n = if len < 10 {
                len
            } else {
                10
            };
            push_chat_ops(ops, &self.chat_log, len - n, self.ss.0, self.ss.1 - 11);
        }
        assert(ops_view(ops@) =~= base + game_ops(*old(self), chunks_of(self.map), connected, others@));
    }

    /// Draws one frame of the screen the client shows, and reacts to the
    /// menu items pressed in it: the main menu (see `main_screen`), the
    /// address screen (see `connect_screen`), the waiting screen (see
    /// `connecting_screen`) or the game (see `game_ops`). `connected` tells
    /// whether the connection is made, and `others` lists the point actors
    /// the client holds, by key. A frame starts by clearing the screen and
    /// ends by clearing the frame's item count, blank rows, press and
    /// release (see `end_frame`).
    pub fn draw_ui(&mut self, connected: bool, others: &Vec<(u16, PointActor)>) -> (frame: UiFrame)
        requires
            old(self).menu_counter <= 252,
            old(self).menu_space <= 254,
            old(self).menu_state == MenuState::Game ==> game_fits(*old(self), connected, others@),
        ensures
            chat_captures_typing(*old(self)) ==> chat_captures_typing(*final(self)),
            log_extends(old(self).chat_log@, final(self).chat_log@),
            match old(self).menu_state {
                MenuState::Main => {
                    let (m, o) = main_screen(old(self).menu_view());
                    &&& final(self).menu_view() == end_frame(m)
                    &&& ops_view(frame.ops@) == seq![DrawView::Erase] + o
                    &&& frame.connect_to is None
                    &&& !frame.drop_client
                    &&& same_world(*old(self), *final(self))
                },
                MenuState::Connect => {
                    let (m, o, addr) = connect_screen(old(self).menu_view());
                    &&& final(self).menu_view() == end_frame(m)
                    &&& ops_view(frame.ops@) == seq![DrawView::Erase] + o
                    &&& match frame.connect_to {
                        Some(a) => addr == Some(a.address@) && request_for(a, a.address@),
                        None => addr is None,
                    }
                    &&& !frame.drop_client
                    &&& same_world(*old(self), *final(self))
                },
                MenuState::Connecting => {
                    let (m, o, d) = connecting_screen(old(self).menu_view(), connected);
                    &&& final(self).menu_view() == end_frame(m)
                    &&& ops_view(frame.ops@) == seq![DrawView::Erase] + o
                    &&& frame.connect_to is None
                    &&& frame.drop_client == d
                    &&& same_world(*old(self), *final(self))
                },
                MenuState::Game => {
                    &&& final(self).menu_view() == end_frame(old(self).menu_view())
                    &&& ops_view(frame.ops@) == seq![DrawView::Erase] + game_ops(
                        *old(self),
                        chunks_of(final(self).map),
                        connected,
                        others@,
                    )
                    &&& frame.connect_to is None
                    &&& !frame.drop_client
                    &&& (App { map: final(self).map, ..*final(self) }) == (App {
                        map: final(self).map,
                        menu_counter: 0,
                        menu_space: 0,
                        menu_unpress: false,
                        menu_press: false,
                        ..*old(self)
                    })
                    &&& !draws_map(*old(self), connected) ==> final(self).map == old(self).map
                    &&& draws_map(*old(self), connected) ==> map_grown(*old(self), final(self).map)
                },
            },
    {
        let mut ops: Vec<DrawOp> = Vec::new();
        push_op(&mut ops, DrawOp::Erase);
        let mut connect_to: Option<ConnectRequest> = None;
        let mut drop_client = false;
        match self.menu_state {
            MenuState::Main => {
                self.draw_main(&mut ops);
            },
            MenuState::Connect => {
                connect_to = self.draw_connect(&mut ops);
            },
            MenuState::Connecting => {
                drop_client = self.draw_connecting(&mut ops, connected);
            },
            MenuState::Game => {
                self.draw_game_screen(&mut ops, connected, others);
            },
        }
        self.menu_counter = 0;
        self.menu_space = 0;
        self.menu_unpress = false;
        self.menu_press = false;
        assert(self.chat_log@.subrange(0, old(self).chat_log@.len() as int) =~= old(self).chat_log@);
        UiFrame { ops, connect_to, drop_client }
    }

    /// Tells whether `draw_ui` may be called: between frames the item count
    /// and the blank rows are small, and on the game screen drawing keeps
    /// every number in an `i32` and divides only where it may (see
    /// `game_fits`).
    pub fn ready_to_draw(&self, connected: bool, others: &Vec<(u16, PointActor)>) -> (ok: bool)
        ensures
            ok == (self.menu_counter <= 252 && self.menu_space <= 254 && (self.menu_state
                == MenuState::Game ==> game_fits(*self, connected, others@))),
    {
        if self.menu_counter > 252 || self.menu_space > 254 {
            return false;
        }
        if self.menu_state != MenuState::Game {
            return true;
        }
        self.game_ready(connected, others)
    }

    /// Tells whether `game_fits` holds.
    fn game_ready(&self, connected: bool, others: &Vec<(u16, PointActor)>) -> (ok: bool)
        ensures
            ok == game_fits(*self, connected, others@),
    {
        if self.ss.1 == i32::MIN {
            return false;
        }
        let len = self.chat_log.len();
        if len > 0 {
            let base = self.ss.1 as i64 - 11;
            if base < i32::MIN as i64 {
                return false;
            }
            let n = if len < 10 {
                len
            } else {
                10
            };
            if !check_chat_fits(&self.chat_log, len - n, self.ss.0, base as i32) {
                return false;
            }
        }
        if self.has_client && connected {
            let center_x = div_floor(self.ss.0, 2);
            let center_y = div_floor(self.ss.1, 2);
            let cam_x = self.player_x as i64 - center_x as i64;
            let cam_y = self.player_y as i64 - center_y as i64;
            if cam_x < i32::MIN as i64 || cam_x > i32::MAX as i64 || cam_y < i32::MIN as i64 || cam_y
                > i32::MAX as i64 {
                return false;
            }
            let skip = match self.pawn_key {
                Some(k) => k,
                None => 0,
            };
            if !check_others_fit(others, skip, cam_x as i32, cam_y as i32) {
                return false;
            }
            if self.map.is_some() {
                return check_map_fits(cam_x as i32, self.ss.0) && check_map_fits(cam_y as i32, self.ss.1);
            }
        }
        true
    }

    /// Shows the screen `new_state`, with its first item selected.
    pub fn change_menu(&mut self, new_state: MenuState)
        ensures
            *final(self) == (App { menu_state: new_state, menu_idx: 0, ..*old(self) }),
    {
        self.menu_state = new_state;
        self.menu_idx = 0;
    }
}

} // verus!
