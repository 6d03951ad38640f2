//! The first desktop client: click chains and the client's state.

pub mod actions;
pub mod client_state;
pub mod game_state;
pub mod state_handler;
