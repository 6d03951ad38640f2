//! The match queue: who is queued for which role, when a match can be made,
//! and how the queued players are split into two teams.

use vstd::prelude::*;
use vstd::string::*;
use crate::text::str_eq;

verus! {

/// A queued player, with what the queue page shows of them.
#[derive(Debug)]
pub struct ResolvedQueuePlayer {
    pub username: String,
    /// The player's user id.
    pub id: i32,
    pub role: String,
    pub battletag: String,
    pub rating: i32,
    pub wins: i32,
    pub losses: i32,
}

/// A queue with its players split by role, each list in the order they
/// queued.
#[derive(Debug)]
pub struct ResolvedQueue {
    pub id: i32,
    pub title: String,
    pub tanks: Vec<ResolvedQueuePlayer>,
    pub dps: Vec<ResolvedQueuePlayer>,
    pub supports: Vec<ResolvedQueuePlayer>,
}

/// The test for players queued for `role`, as a function value.
pub open spec fn queued_as(role: Seq<char>) -> spec_fn(ResolvedQueuePlayer) -> bool {
    |p: ResolvedQueuePlayer| p.role@ == role
}

/// The ids of a list of players.
pub open spec fn ids(players: Seq<ResolvedQueuePlayer>) -> Seq<i32> {
    players.map_values(|p: ResolvedQueuePlayer| p.id)
}

impl ResolvedQueue {
    /// The queue `queue_id` resolved from its queued players (`None`: they
    /// could not be read, and the queue is shown empty). Players queued for a
    /// role other than Tank, DPS or Support are left out.
    pub fn from_id(queue_id: i32, queued_players: Option<Vec<ResolvedQueuePlayer>>) -> (r: Self)
        ensures
            r.id == queue_id,
            r.title@ == Seq::<char>::empty(),
            match queued_players {
                Some(players) => {
                    &&& r.tanks@ == players@.filter(queued_as("Tank"@))
                    &&& r.dps@ == players@.filter(queued_as("DPS"@))
                    &&& r.supports@ == players@.filter(queued_as("Support"@))
                },
                None => r.tanks@.len() == 0 && r.dps@.len() == 0 && r.supports@.len() == 0,
            },
    {
        let mut ret = ResolvedQueue {
            id: queue_id,
            title: String::new(),
            tanks: Vec::new(),
            dps: Vec::new(),
            supports: Vec::new(),
        };
        match queued_players {
            None => ret,
            Some(players) => {
                let ghost all = players@;
                let mut rest = players;
                let n = rest.len();
                let mut i: usize = 0;
                proof {
                    reveal_with_fuel(Seq::<ResolvedQueuePlayer>::filter, 1);
                    assert(all.take(0) =~= Seq::<ResolvedQueuePlayer>::empty());
                    assert(rest@ =~= all.skip(0));
                }
                while i < n
                    invariant
                        n == all.len(),
                        i <= n,
                        rest@ == all.skip(i as int),
                        ret.id == queue_id,
                        ret.title@ == Seq::<char>::empty(),
                        ret.tanks@ == all.take(i as int).filter(queued_as("Tank"@)),
                        ret.dps@ == all.take(i as int).filter(queued_as("DPS"@)),
                        ret.supports@ == all.take(i as int).filter(queued_as("Support"@)),
                    decreases n - i,
                {
                    let player = rest.remove(0);
                    proof {
                        reveal_with_fuel(Seq::<ResolvedQueuePlayer>::filter, 1);
                        assert(all.take(i + 1).drop_last() =~= all.take(i as int));
                        assert(all.take(i + 1).last() == player);
                        assert(rest@ =~= all.skip(i + 1));
                        reveal_strlit("Tank");
                        reveal_strlit("DPS");
                        reveal_strlit("Support");
                        assert("Tank"@.len() == 4 && "DPS"@.len() == 3 && "Support"@.len() == 7);
                        assert(queued_as("Tank"@)(player) == (player.role@ == "Tank"@));
                        assert(queued_as("DPS"@)(player) == (player.role@ == "DPS"@));
                        assert(queued_as("Support"@)(player) == (player.role@ == "Support"@));
                    }
                    if str_eq(player.role.as_str(), "Tank") {
                        ret.tanks.push(player);
                    } else if str_eq(player.role.as_str(), "DPS") {
                        ret.dps.push(player);
                    } else if str_eq(player.role.as_str(), "Support") {
                        ret.supports.push(player);
                    }
                    i = i + 1;
                }
                assert(all.take(n as int) =~= all);
                ret
            },
        }
    }
}

/// Enough players are queued to fill a match: two tanks, four damage
/// players and four supports.
pub open spec fn enough_players(queue: &ResolvedQueue) -> bool {
    queue.tanks@.len() >= 2 && queue.dps@.len() >= 4 && queue.supports@.len() >= 4
}

/// Whether enough players are queued to fill a match.
pub fn constraints_satisfied(queue: &ResolvedQueue) -> (r: bool)
    ensures
        r == enough_players(queue),
{
    queue.tanks.len() >= 2 && queue.dps.len() >= 4 && queue.supports.len() >= 4
}

/// The blue team: the first tank, the first two damage players and the first
/// two supports, in that order.
pub open spec fn blue_team(queue: &ResolvedQueue) -> Seq<i32> {
    seq![
        queue.tanks@[0].id,
        queue.dps@[0].id,
        queue.dps@[1].id,
        queue.supports@[0].id,
        queue.supports@[1].id,
    ]
}

/// The red team: the second tank, the third and fourth damage players and
/// the third and fourth supports, in that order.
pub open spec fn red_team(queue: &ResolvedQueue) -> Seq<i32> {
    seq![
        queue.tanks@[1].id,
        queue.dps@[2].id,
        queue.dps@[3].id,
        queue.supports@[2].id,
        queue.supports@[3].id,
    ]
}

/// Splits the players at the head of each role's list into two teams, in
/// the order they queued for their role; ratings are not taken into account.
/// Fewer players than a match needs is a fatal error.
pub fn assign_teams(queue: &ResolvedQueue) -> (r: (Vec<i32>, Vec<i32>))
    requires
        enough_players(queue),
    ensures
        r.0@ == blue_team(queue),
        r.1@ == red_team(queue),
{
    // Blue team
    let mut blue: Vec<i32> = Vec::new();
    // 1 Tank
    blue.push(queue.tanks[0].id);
    // 2 DPS
    blue.push(queue.dps[0].id);
    blue.push(queue.dps[1].id);
    // 2 Supports
    blue.push(queue.supports[0].id);
    blue.push(queue.supports[1].id);
    // Red team
    let mut red: Vec<i32> = Vec::new();
    // 1 Tank
    red.push(queue.tanks[1].id);
    // 2 DPS
    red.push(queue.dps[2].id);
    red.push(queue.dps[3].id);
    // 2 Supports
    red.push(queue.supports[2].id);
    red.push(queue.supports[3].id);
    assert(blue@ =~= blue_team(queue));
    assert(red@ =~= red_team(queue));
    (blue, red)
}

/// The teams of the match the queue pops, if enough players are queued.
pub fn pop_queue(queue: &ResolvedQueue) -> (r: Option<(Vec<i32>, Vec<i32>)>)
    ensures
        match r {
            Some(teams) => enough_players(queue) && teams.0@ == blue_team(queue) && teams.1@
                == red_team(queue),
            None => !enough_players(queue),
        },
{
    // Ensure that enough players to fill a match are queued.
    if constraints_satisfied(queue) {
        Some(assign_teams(queue))
    } else {
        None
    }
}

/// Each team of a popped match has five players, and when no user is queued
/// twice no player is put on both teams.
pub proof fn law_popped_teams_are_disjoint(queue: &ResolvedQueue, i: int, j: int)
    requires
        enough_players(queue),
        (ids(queue.tanks@) + ids(queue.dps@) + ids(queue.supports@)).no_duplicates(),
        0 <= i < 5,
        0 <= j < 5,
    ensures
        blue_team(queue).len() == 5,
        red_team(queue).len() == 5,
        blue_team(queue)[i] != red_team(queue)[j],
{
    let t = queue.tanks@.len() as int;
    let d = queue.dps@.len() as int;
    let all = ids(queue.tanks@) + ids(queue.dps@) + ids(queue.supports@);
    let blue_at = seq![0, t, t + 1, t + d, t + d + 1];
    let red_at = seq![1, t + 2, t + 3, t + d + 2, t + d + 3];
    assert forall|k: int| 0 <= k < 5 implies 0 <= blue_at[k] < all.len() && #[trigger] all[blue_at[k]]
        == blue_team(queue)[k] by {
        assert(ids(queue.tanks@)[0] == queue.tanks@[0].id);
    }
    assert forall|k: int| 0 <= k < 5 implies 0 <= red_at[k] < all.len() && #[trigger] all[red_at[k]]
        == red_team(queue)[k] by {
        assert(ids(queue.tanks@)[1] == queue.tanks@[1].id);
    }
    assert(blue_at[i] != red_at[j]);
    assert(all[blue_at[i]] != all[red_at[j]]);
}

/// A queue pops exactly when it holds at least two tanks, at least four
/// damage players and at least four supports; each team then takes one
/// tank, two damage players and two supports from the head of each role's
/// list, blue first.
pub proof fn law_queue_pops_with_enough_players(queue: &ResolvedQueue)
    ensures
        enough_players(queue) <==> (queue.tanks@.len() >= 2 && queue.dps@.len() >= 4
            && queue.supports@.len() >= 4),
        enough_players(queue) ==> blue_team(queue) == seq![
            queue.tanks@[0].id,
            queue.dps@[0].id,
            queue.dps@[1].id,
            queue.supports@[0].id,
            queue.supports@[1].id,
        ] && red_team(queue) == seq![
            queue.tanks@[1].id,
            queue.dps@[2].id,
            queue.dps@[3].id,
            queue.supports@[2].id,
            queue.supports@[3].id,
        ],
{
}

/// More players never stop a queue from popping: a queue with at least as
/// many players of every role as a queue that pops pops too.
pub proof fn law_more_players_still_pop(smaller: &ResolvedQueue, larger: &ResolvedQueue)
    requires
        enough_players(smaller),
        larger.tanks@.len() >= smaller.tanks@.len(),
        larger.dps@.len() >= smaller.dps@.len(),
        larger.supports@.len() >= smaller.supports@.len(),
    ensures
        enough_players(larger),
{
}

} // verus!
