//! The web site: accounts, sessions, the match queue, and the HTML it serves.

pub mod queue;
pub mod models;
pub mod password;
pub mod payloads;
pub mod session_token;
pub mod user;
pub mod components;
pub mod endpoints;
pub mod commserver;
pub mod overwatch_match;
pub mod ws;
