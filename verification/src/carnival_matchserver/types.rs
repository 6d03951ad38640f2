//! The match that the web site hands to the match server.

use vstd::prelude::*;
use crate::text::texts;
use crate::carnival_matchserver::input::{InputStep, Step, plan_view};
use crate::carnival_matchserver::dyn_actions::{DynamicActionChain, invite_chain, dynamic_chain_steps};

verus! {

/// A match as the web site stores it.
#[derive(Clone, Debug)]
pub struct OverwatchMatch {
    pub id: i32,
    pub map_id: i32,
    pub winner: u8,
    pub status: u8,
}

/// The battletags of the players of each team.
#[derive(Clone, Debug)]
pub struct ResolvedTeams {
    pub blue: Vec<String>,
    pub red: Vec<String>,
}

/// A match together with its teams.
#[derive(Clone, Debug)]
pub struct ResolvedOverwatchMatch {
    pub overwatch_match: OverwatchMatch,
    pub resolved_teams: ResolvedTeams,
}

/// The steps that invite every battletag of `tags`, in order, to `team`.
pub open spec fn invite_steps(tags: Seq<Seq<char>>, team: u8) -> Seq<Step>
    decreases tags.len(),
{
    if tags.len() == 0 {
        Seq::empty()
    } else {
        invite_steps(tags.drop_last(), team) + dynamic_chain_steps(invite_chain(tags.last(), team))
    }
}

/// Plans inviting every battletag of `tags` to `team`, in order.
fn invite_team(tags: &Vec<String>, team: u8, plan: &mut Vec<InputStep>)
    ensures
        plan_view(final(plan)@) == plan_view(old(plan)@) + invite_steps(texts(tags@), team),
{
    let mut i: usize = 0;
    assert(texts(tags@).take(0) =~= Seq::<Seq<char>>::empty());
    assert(plan_view(plan@) =~= plan_view(old(plan)@) + invite_steps(texts(tags@).take(0), team));
    while i < tags.len()
        invariant
            i <= tags@.len(),
            plan_view(plan@) == plan_view(old(plan)@) + invite_steps(texts(tags@).take(i as int), team),
        decreases tags@.len() - i,
    {
        let chain = DynamicActionChain::generate_invite_chain(tags[i].clone(), team);
        chain.invoke(plan);
        proof {
            let t = texts(tags@);
            assert(t.take(i + 1).drop_last() =~= t.take(i as int));
            assert(t.take(i + 1).last() == tags@[i as int]@);
            assert(plan_view(plan@) =~= plan_view(old(plan)@) + invite_steps(t.take(i + 1), team));
        }
        i = i + 1;
    }
    assert(texts(tags@).take(tags@.len() as int) =~= texts(tags@));
}

impl ResolvedTeams {
    /// Plans inviting every blue player to team 1, then every red player to
    /// team 2.
    pub fn invite(&self, plan: &mut Vec<InputStep>)
        ensures
            plan_view(final(plan)@) == plan_view(old(plan)@) + invite_steps(texts(self.blue@), 1)
                + invite_steps(texts(self.red@), 2),
    {
        invite_team(&self.blue, 1, plan);
        invite_team(&self.red, 2, plan);
    }
}

} // verus!
