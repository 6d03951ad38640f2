//! The teams of the game the client hosts.

use vstd::prelude::*;

verus! {

/// The battletags of each team.
pub struct GameState {
    pub blue_team: Vec<String>,
    pub red_team: Vec<String>,
}

impl GameState {
    /// No players on either team.
    pub fn default() -> (r: Self)
        ensures
            r.blue_team@.len() == 0,
            r.red_team@.len() == 0,
    {
        GameState { blue_team: Vec::new(), red_team: Vec::new() }
    }
}

} // verus!
