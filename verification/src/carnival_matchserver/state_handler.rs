//! The match server's whole state: the client's menus and the game.

use vstd::prelude::*;
use crate::carnival_matchserver::client_state::{ClientState, ClientStateView, Menu};
use crate::carnival_matchserver::game_state::{GameState, GameStateView};

verus! {

/// The state that the match server saves and restores.
#[derive(Debug)]
pub struct StateHandler {
    pub client_state: ClientState,
    pub game_state: GameState,
}

impl Default for StateHandler {
    fn default() -> (r: Self)
        ensures
            r.client_state@ == (ClientStateView {
                client_state: Menu::Unknown,
                previous_state: Menu::Unknown,
            }),
            r.game_state@ == (GameStateView {
                has_game: false,
                game_configured: false,
                blue: Seq::empty(),
                red: Seq::empty(),
            }),
    {
        StateHandler { client_state: ClientState::default(), game_state: GameState::default() }
    }
}

impl StateHandler {
    /// Fills both parts with made-up data, for testing.
    pub fn test_set_dummy_data(&mut self) -> (r: &mut Self)
        ensures
            r.client_state@ == (ClientStateView {
                client_state: Menu::CustomSettingsRoot,
                previous_state: Menu::CustomLobby,
            }),
            r.game_state@ == (GameStateView {
                blue: old(self).game_state@.blue + seq![
                    "TestBlue1#123"@,
                    "TestBlue2#123"@,
                    "TestBlue3#123"@,
                ],
                red: old(self).game_state@.red + seq![
                    "TestRed1#123"@,
                    "TestRed2#123"@,
                    "TestRed3#123"@,
                ],
                ..old(self).game_state@
            }),
            *final(self) == *final(r),
    {
        self.client_state.test_set_dummy_data();
        self.game_state.test_set_dummy_data();
        self
    }
}

} // verus!
