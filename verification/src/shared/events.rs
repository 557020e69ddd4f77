//! The events that travel between client and server.

use vstd::prelude::*;

verus! {

/// The movement keys held during one tick: up (`w`), down (`s`), left (`a`)
/// and right (`d`).
#[derive(Copy, Clone, Debug, PartialEq, Eq, Structural)]
pub struct KeyCommand {
    pub w: bool,
    pub s: bool,
    pub a: bool,
    pub d: bool,
}

impl KeyCommand {
    /// The command with these keys held.
    pub fn new(w: bool, s: bool, a: bool, d: bool) -> (c: KeyCommand)
        ensures
            c == (KeyCommand { w, s, a, d }),
    {
        KeyCommand { w, s, a, d }
    }
}

/// The credentials a client presents when it connects.
#[derive(Clone, Debug)]
pub struct AuthEvent {
    pub username: String,
    pub password: String,
}

impl AuthEvent {
    /// The event that presents `username` and `password`.
    pub fn new(username: &str, password: &str) -> (e: AuthEvent)
        ensures
            e.username@ == username@,
            e.password@ == password@,
    {
        AuthEvent { username: username.to_string(), password: password.to_string() }
    }
}

/// A chat line sent by a client.
#[derive(Clone, Debug)]
pub struct ChatEvent {
    pub body: String,
}

impl ChatEvent {
    /// Chat lines are delivered reliably.
    pub fn is_guaranteed() -> (b: bool)
        ensures
            b,
    {
        true
    }

    /// The chat event that carries `body`.
    pub fn new(body: &str) -> (e: ChatEvent)
        ensures
            e.body@ == body@,
    {
        ChatEvent { body: body.to_string() }
    }
}

/// Every kind of event that travels between client and server.
#[derive(Clone, Debug)]
pub enum Events {
    KeyCommand(KeyCommand),
    AuthEvent(AuthEvent),
    ChatEvent(ChatEvent),
}

} // verus!
