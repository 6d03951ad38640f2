//! The match server's settings, read from `config.toml`.

use vstd::prelude::*;

verus! {

/// The match server's settings.
#[derive(Debug)]
pub struct Config {
    pub api: String,
    pub start_game: bool,
    pub start_ws_server: bool,
    pub start_discord_bot: bool,
    pub discord_bot_token: String,
}

} // verus!
