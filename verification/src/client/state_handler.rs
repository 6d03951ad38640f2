//! The client's whole state, saved to and restored from `state_handler.json`.

use vstd::prelude::*;
use crate::client::client_state::ClientState;
use crate::client::game_state::GameState;

verus! {

/// The client's menus and game.
pub struct StateHandler {
    pub client_state: ClientState,
    pub game_state: GameState,
}

} // verus!
