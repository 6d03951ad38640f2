//! The match server: it waits for the web site to announce a match, then
//! drives the Overwatch client to set up and fill a custom lobby.

pub mod input;
pub mod static_actions;
pub mod dyn_actions;
pub mod game_state;
pub mod client_state;
pub mod map;
pub mod types;
pub mod state_handler;
pub mod actions;
pub mod config;
pub mod connection;
pub mod scan;
pub mod window;
