//! Carnival: an instanced Overwatch ladder. A web site queues players and
//! a match server drives the game client to set up custom lobbies.

pub mod chains;
pub mod text;
pub mod carnival_matchserver;
pub mod carnival_web;
pub mod client;
pub mod matchserver;
pub mod web;
