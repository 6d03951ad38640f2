//! Which menu the client shows.

use vstd::prelude::*;

verus! {

/// The menus of the Overwatch client.
#[derive(Clone, Copy, PartialEq, Eq, Structural, Debug)]
pub enum Menu {
    MainMenu,
    PlayMenu,
    CustomList,
    CustomLobby,
    CustomSettingsRoot,
    CustomSettingsPreset,
    CustomSettingsLobby,
    CustomSettingsModes,
    CustomSettingsMaps,
    CustomSettingsHeroes,
    CustomSettingsWorkshop,
    Unknown,
}

impl Default for Menu {
    fn default() -> (r: Self)
        ensures
            r == Menu::Unknown,
    {
        Menu::Unknown
    }
}

/// The menu the client shows now and the one it showed before.
#[derive(Debug)]
pub struct ClientState {
    pub client_state: Menu,
    pub previous_state: Menu,
}

impl Default for ClientState {
    fn default() -> (r: Self)
        ensures
            r.client_state == Menu::Unknown,
            r.previous_state == Menu::Unknown,
    {
        ClientState { client_state: Menu::Unknown, previous_state: Menu::Unknown }
    }
}

impl ClientState {
    /// Sets made-up menus, for testing.
    pub fn test_set_dummy_data(&mut self)
        ensures
            final(self).client_state == Menu::CustomSettingsRoot,
            final(self).previous_state == Menu::CustomLobby,
    {
        self.client_state = Menu::CustomSettingsRoot;
        self.previous_state = Menu::CustomLobby;
    }
}

} // verus!
