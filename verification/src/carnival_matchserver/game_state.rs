//! What the match server knows about the game it is hosting.

use vstd::prelude::*;
use vstd::string::*;
use crate::text::texts;

verus! {

/// Whether a game is running, whether its lobby is set up, and its teams.
#[derive(Debug)]
pub struct GameState {
    pub has_game: bool,
    pub game_configured: bool,
    blue_team: Vec<String>,
    red_team: Vec<String>,
}

/// The mathematical meaning of a game state; the teams are lists of battletags.
pub struct GameStateView {
    pub has_game: bool,
    pub game_configured: bool,
    pub blue: Seq<Seq<char>>,
    pub red: Seq<Seq<char>>,
}

impl View for GameState {
    type V = GameStateView;

    closed spec fn view(&self) -> GameStateView {
        GameStateView {
            has_game: self.has_game,
            game_configured: self.game_configured,
            blue: texts(self.blue_team@),
            red: texts(self.red_team@),
        }
    }
}

impl GameState {
    /// Whether a game is running.
    pub fn has_game(&self) -> (r: bool)
        ensures
            r == self@.has_game,
    {
        self.has_game
    }

    /// Whether the lobby of the game has been set up.
    pub fn game_configured(&self) -> (r: bool)
        ensures
            r == self@.game_configured,
    {
        self.game_configured
    }

    /// Records whether the lobby of the game has been set up.
    pub fn set_game_configured(&mut self, configured: bool)
        ensures
            final(self)@ == (GameStateView { game_configured: configured, ..old(self)@ }),
    {
        self.game_configured = configured;
    }

    /// A game state with the given flags and teams.
    pub fn from_parts(has_game: bool, game_configured: bool, blue_team: Vec<String>, red_team: Vec<String>) -> (r: Self)
        ensures
            r@ == (GameStateView {
                has_game,
                game_configured,
                blue: texts(blue_team@),
                red: texts(red_team@),
            }),
    {
        GameState { has_game, game_configured, blue_team, red_team }
    }

    /// The battletags of the blue team.
    pub fn blue_team(&self) -> (r: &Vec<String>)
        ensures
            texts(r@) == self@.blue,
    {
        &self.blue_team
    }

    /// The battletags of the red team.
    pub fn red_team(&self) -> (r: &Vec<String>)
        ensures
            texts(r@) == self@.red,
    {
        &self.red_team
    }

    /// Adds three made-up battletags to each team.
    pub fn test_set_dummy_data(&mut self)
        ensures
            final(self)@ == (GameStateView {
                blue: old(self)@.blue + seq!["TestBlue1#123"@, "TestBlue2#123"@, "TestBlue3#123"@],
                red: old(self)@.red + seq!["TestRed1#123"@, "TestRed2#123"@, "TestRed3#123"@],
                ..old(self)@
            }),
    {
        self.blue_team.push(String::from_str("TestBlue1#123"));
        self.blue_team.push(String::from_str("TestBlue2#123"));
        self.blue_team.push(String::from_str("TestBlue3#123"));
        self.red_team.push(String::from_str("TestRed1#123"));
        self.red_team.push(String::from_str("TestRed2#123"));
        self.red_team.push(String::from_str("TestRed3#123"));
        assert(self@.blue =~= old(self)@.blue + seq![
            "TestBlue1#123"@,
            "TestBlue2#123"@,
            "TestBlue3#123"@,
        ]);
        assert(self@.red =~= old(self)@.red + seq![
            "TestRed1#123"@,
            "TestRed2#123"@,
            "TestRed3#123"@,
        ]);
    }
}

impl Default for GameState {
    fn default() -> (r: Self)
        ensures
            r@ == (GameStateView {
                has_game: false,
                game_configured: false,
                blue: Seq::empty(),
                red: Seq::empty(),
            }),
    {
        let r = GameState {
            has_game: false,
            game_configured: false,
            blue_team: Vec::new(),
            red_team: Vec::new(),
        };
        assert(r@.blue =~= Seq::<Seq<char>>::empty());
        assert(r@.red =~= Seq::<Seq<char>>::empty());
        r
    }
}

} // verus!
