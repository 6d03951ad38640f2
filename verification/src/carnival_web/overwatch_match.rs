//! Matches: the rows that record who plays for which team, and a match with
//! its players' accounts.

use vstd::prelude::*;
use crate::carnival_web::models::{OverwatchMatch, OverwatchMatchPlayer, User};

verus! {

/// The team numbers a match records: 1 is blue, 2 is red.
pub const BLUE_TEAM: u8 = 1;

/// See `BLUE_TEAM`.
pub const RED_TEAM: u8 = 2;

/// The rows that record who plays in a match: each blue player with team 1,
/// then each red player with team 2, in order.
pub open spec fn player_rows(blue: Seq<i32>, red: Seq<i32>) -> Seq<(i32, u8)> {
    blue.map_values(|u: i32| (u, BLUE_TEAM)) + red.map_values(|u: i32| (u, RED_TEAM))
}

/// The (user id, team) rows recorded for a new match.
pub fn match_player_rows(blue_team: &Vec<i32>, red_team: &Vec<i32>) -> (r: Vec<(i32, u8)>)
    ensures
        r@ == player_rows(blue_team@, red_team@),
{
    let mut rows: Vec<(i32, u8)> = Vec::new();
    let mut i: usize = 0;
    while i < blue_team.len()
        invariant
            i <= blue_team@.len(),
            rows@ == blue_team@.take(i as int).map_values(|u: i32| (u, BLUE_TEAM)),
        decreases blue_team@.len() - i,
    {
        rows.push((blue_team[i], BLUE_TEAM));
        assert(rows@ =~= blue_team@.take(i + 1).map_values(|u: i32| (u, BLUE_TEAM)));
        i = i + 1;
    }
    assert(blue_team@.take(blue_team@.len() as int) =~= blue_team@);
    let ghost blue_rows = rows@;
    let mut j: usize = 0;
    while j < red_team.len()
        invariant
            j <= red_team@.len(),
            rows@ == blue_rows + red_team@.take(j as int).map_values(|u: i32| (u, RED_TEAM)),
        decreases red_team@.len() - j,
    {
        rows.push((red_team[j], RED_TEAM));
        assert(rows@ =~= blue_rows + red_team@.take(j + 1).map_values(|u: i32| (u, RED_TEAM)));
        j = j + 1;
    }
    assert(red_team@.take(red_team@.len() as int) =~= red_team@);
    rows
}

/// The user ids of a team's players, in order.
pub fn team_user_ids(players: &Vec<OverwatchMatchPlayer>) -> (r: Vec<i32>)
    ensures
        r@ == players@.map_values(|p: OverwatchMatchPlayer| p.user_id),
{
    let mut ids: Vec<i32> = Vec::new();
    let mut i: usize = 0;
    while i < players.len()
        invariant
            i <= players@.len(),
            ids@ == players@.take(i as int).map_values(|p: OverwatchMatchPlayer| p.user_id),
        decreases players@.len() - i,
    {
        ids.push(players[i].user_id);
        assert(ids@ =~= players@.take(i + 1).map_values(|p: OverwatchMatchPlayer| p.user_id));
        i = i + 1;
    }
    assert(players@.take(players@.len() as int) =~= players@);
    ids
}

/// A match with its players' accounts.
#[derive(Debug)]
pub struct ResolvedOverwatchMatch {
    pub overwatch_match: OverwatchMatch,
    pub blue_team: Vec<User>,
    pub red_team: Vec<User>,
}

impl ResolvedOverwatchMatch {
    /// The match with its teams, given the match and each team's accounts as
    /// far as they could be loaded; if anything could not be loaded, the
    /// empty match (id 0, no players).
    pub fn from_id(
        ow_match: Option<OverwatchMatch>,
        blue: Option<Vec<User>>,
        red: Option<Vec<User>>,
    ) -> (r: Self)
        ensures
            match (ow_match, blue, red) {
                (Some(m), Some(b), Some(rd)) => r.overwatch_match == m && r.blue_team@ == b@
                    && r.red_team@ == rd@,
                _ => r.overwatch_match.id == 0 && r.overwatch_match.map_id == 0 && r.blue_team@.len()
                    == 0 && r.red_team@.len() == 0,
            },
    {
        match (ow_match, blue, red) {
            (Some(m), Some(b), Some(rd)) => ResolvedOverwatchMatch {
                overwatch_match: m,
                blue_team: b,
                red_team: rd,
            },
            _ => ResolvedOverwatchMatch {
                overwatch_match: OverwatchMatch::default(),
                blue_team: Vec::new(),
                red_team: Vec::new(),
            },
        }
    }
}

} // verus!
