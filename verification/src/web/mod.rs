//! The first web site: accounts and login.

pub mod endpoints;
pub mod models;
