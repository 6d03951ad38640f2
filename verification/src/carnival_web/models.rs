//! The rows of the web site's database tables.

use vstd::prelude::*;

verus! {

/// A login session, bound to the address it was created from.
#[derive(Debug)]
pub struct SessionToken {
    pub for_user: i32,
    pub remote_addr: String,
    pub unique_hmac_key: String,
    pub token: String,
    pub is_valid: bool,
    pub invalidation_source: String,
}

/// A user account.
#[derive(Debug)]
pub struct User {
    pub id: i32,
    pub username: String,
    pub password: String,
    pub battletag: String,
    pub role: String,
    pub rating: i32,
    pub wins: i32,
    pub losses: i32,
}

impl Default for User {
    /// The account that stands for "nobody": id 0 and empty texts.
    fn default() -> (r: Self)
        ensures
            r.id == 0,
            r.username@ == Seq::<char>::empty(),
            r.password@ == Seq::<char>::empty(),
            r.battletag@ == Seq::<char>::empty(),
            r.role@ == Seq::<char>::empty(),
            r.rating == 0,
            r.wins == 0,
            r.losses == 0,
    {
        User {
            id: 0,
            username: String::new(),
            password: String::new(),
            battletag: String::new(),
            role: String::new(),
            rating: 0,
            wins: 0,
            losses: 0,
        }
    }
}

/// A map of the map pool.
#[derive(Debug)]
pub struct OverwatchMap {
    pub id: i32,
    pub name: String,
    pub mode: String,
}

/// A match.
#[derive(Debug)]
pub struct OverwatchMatch {
    pub id: i32,
    pub map_id: i32,
}

impl Default for OverwatchMatch {
    fn default() -> (r: Self)
        ensures
            r.id == 0,
            r.map_id == 0,
    {
        OverwatchMatch { id: 0, map_id: 0 }
    }
}

/// A player of a match; team 1 is blue and team 2 is red.
#[derive(Debug)]
pub struct OverwatchMatchPlayer {
    pub id: i32,
    pub user_id: i32,
    pub match_id: i32,
    pub team_id: u8,
}

/// A queue.
#[derive(Debug)]
pub struct Queue {
    pub id: i32,
    pub title: String,
    pub demographic: String,
}

/// A player waiting in a queue for a role.
#[derive(Debug)]
pub struct QueuedPlayer {
    pub id: i32,
    pub queue_id: i32,
    pub user_id: i32,
    pub role: String,
}

} // verus!
