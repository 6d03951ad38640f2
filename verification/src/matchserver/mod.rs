//! The first match server: its settings and the client's state.

pub mod client_state;
pub mod config;
