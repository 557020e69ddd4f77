//! What the window reports to the client, and the size of its character grid.

use vstd::prelude::*;
use crate::integer::{div_floor, floor_div};

verus! {

/// What the window reports to the client each frame.
#[derive(Copy, Clone, Debug, PartialEq, Eq, Structural)]
pub enum Event {
    /// A typed character, or one of the keys that stand for one.
    Character(char),
    /// The window changed size.
    WindowResize,
}

/// The event that a pressed key with this scan code stands for, where the
/// window reports no character for it: Enter is a newline, Backspace a
/// backspace and Escape an escape character.
pub fn key_event(scancode: u32) -> (e: Option<Event>)
    ensures
        e == if scancode == 28 {
            Some(Event::Character('\n'))
        } else if scancode == 14 {
            Some(Event::Character('\u{8}'))
        } else if scancode == 1 {
            Some(Event::Character('\u{1b}'))
        } else {
            None::<Event>
        },
{
    if scancode == 28 {
        Some(Event::Character('\n'))
    } else if scancode == 14 {
        Some(Event::Character('\u{8}'))
    } else if scancode == 1 {
        Some(Event::Character('\u{1b}'))
    } else {
        None
    }
}

/// What the window reports in one turn of its event loop, as plain values.
#[derive(Copy, Clone, Debug, PartialEq, Eq, Structural)]
pub enum WindowInput {
    /// The window is asked to close.
    CloseRequested,
    /// The window changed size.
    Resized,
    /// A key was pressed; its scan code.
    KeyPressed(u32),
    /// A key was released; its scan code.
    KeyReleased(u32),
    /// The window received a typed character.
    ReceivedCharacter(char),
    /// Anything else.
    Other,
}

/// What one turn of the window's event loop hands the client, and whether
/// the loop ends: a pressed key gives the event its scan code stands for
/// (see `key_event`), a received character passes through, and everything
/// else gives none; only a close request ends the loop.
pub open spec fn window_turn(input: WindowInput) -> (Option<Event>, bool) {
    match input {
        WindowInput::CloseRequested => (None, true),
        WindowInput::KeyPressed(code) => (
            if code == 28 {
                Some(Event::Character('\n'))
            } else if code == 14 {
                Some(Event::Character('\u{8}'))
            } else if code == 1 {
                Some(Event::Character('\u{1b}'))
            } else {
                None
            },
            false,
        ),
        WindowInput::ReceivedCharacter(c) => (Some(Event::Character(c)), false),
        _ => (None, false),
    }
}

/// Works out one turn of the window's event loop (see `window_turn`): the
/// event for the client, if any, and whether the loop ends.
pub fn window_event(input: WindowInput) -> (r: (Option<Event>, bool))
    ensures
        r == window_turn(input),
{
    match input {
        WindowInput::CloseRequested => (None, true),
        WindowInput::KeyPressed(code) => (key_event(code), false),
        WindowInput::ReceivedCharacter(c) => (Some(Event::Character(c)), false),
        _ => (None, false),
    }
}

/// Whether the curses screen draws a character at column `x`, row `y`: it
/// skips every position left of or above the screen.
pub fn plot_visible(x: i32, y: i32) -> (v: bool)
    ensures
        v == (x >= 0 && y >= 0),
{
    !(x < 0 || y < 0)
}

/// The side of a character cell on the OpenGL screen, in pixels.
pub const CHAR_SIZE: i32 = 32;

/// The character grid of a framebuffer `size` pixels wide and high (where
/// there is a window yet): how many whole cells fit across and down, the
/// sizes taken as `i32`. Without a window the grid is empty.
pub fn grid_dimensions(size: Option<(u32, u32)>) -> (d: (i32, i32))
    ensures
        d == match size {
            Some((w, h)) => (
                floor_div((w as i32) as int, CHAR_SIZE as int) as i32,
                floor_div((h as i32) as int, CHAR_SIZE as int) as i32,
            ),
            None => (0i32, 0i32),
        },
{
    match size {
        Some((w, h)) => {
            let w = #[verifier::truncate] (w as i32);
            let h = #[verifier::truncate] (h as i32);
            (div_floor(w, CHAR_SIZE), div_floor(h, CHAR_SIZE))
        },
        None => (0, 0),
    }
}

} // verus!
