//! The client's screens.

use vstd::prelude::*;

verus! {

/// The screen the client shows.
#[derive(Copy, Clone, Debug, PartialEq, Eq, Structural)]
pub enum MenuState {
    Main,
    Connect,
    Connecting,
    Game,
}

} // verus!
