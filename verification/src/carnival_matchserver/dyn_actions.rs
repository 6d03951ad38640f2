//! Action chains built at run time, such as the chain that invites a player
//! to the lobby by battletag.

use vstd::prelude::*;
use crate::carnival_matchserver::input::{
    InputStep, Step, Plannable, plan_view, push_step, type_str, type_str_steps, chain_steps,
    chain_plannable, invoke_all,
};

verus! {

/// Whether an action types text or clicks.
#[derive(Clone, Copy, PartialEq, Eq, Structural, Debug)]
pub enum ActionType {
    Keyboard,
    Mouse,
}

/// A keyboard or mouse action whose text is known only at run time.
#[derive(Debug)]
pub struct DynamicAction {
    action_type: ActionType,
    input: String,
    x: i32,
    y: i32,
    delay: u64,
}

/// The mathematical meaning of a dynamic action.
pub struct DynamicActionView {
    pub action_type: ActionType,
    pub input: Seq<char>,
    pub x: i32,
    pub y: i32,
    pub delay: u64,
}

impl View for DynamicAction {
    type V = DynamicActionView;

    closed spec fn view(&self) -> DynamicActionView {
        DynamicActionView {
            action_type: self.action_type,
            input: self.input@,
            x: self.x,
            y: self.y,
            delay: self.delay,
        }
    }
}

impl DynamicAction {
    pub fn new(action_type: ActionType, input: String, x: i32, y: i32, delay: u64) -> (r: Self)
        ensures
            r@ == (DynamicActionView { action_type, input: input@, x, y, delay }),
    {
        Self { action_type, input, x, y, delay }
    }
}

/// The steps of a dynamic action: typing pauses 100 ms first so that the game's
/// interface can catch up, then types the text; a click pauses `delay` ms first.
pub open spec fn dynamic_steps(a: DynamicActionView) -> Seq<Step> {
    match a.action_type {
        ActionType::Keyboard => seq![Step::Sleep(100)] + type_str_steps(a.input, a.delay),
        ActionType::Mouse => seq![Step::Sleep(a.delay), Step::Click(a.x, a.y)],
    }
}

impl Plannable for DynamicAction {
    open spec fn steps(&self) -> Seq<Step> {
        dynamic_steps(self@)
    }

    open spec fn plannable(&self) -> bool {
        self@.delay * 5 <= u64::MAX
    }

    fn invoke(&self, plan: &mut Vec<InputStep>) {
        match self.action_type {
            ActionType::Keyboard => {
                push_step(plan, InputStep::Sleep { millis: 100 });
                type_str(plan, self.input.as_str(), self.delay);
                assert(plan_view(plan@) =~= plan_view(old(plan)@) + self.steps());
            },
            ActionType::Mouse => {
                push_step(plan, InputStep::Sleep { millis: self.delay });
                push_step(plan, InputStep::Click { x: self.x, y: self.y });
                assert(plan_view(plan@) =~= plan_view(old(plan)@) + self.steps());
            },
        }
    }
}

/// A list of dynamic actions performed in order.
#[derive(Debug)]
pub struct DynamicActionChain(Vec<DynamicAction>);

/// A click after `delay` ms.
pub open spec fn mouse(x: i32, y: i32, delay: u64) -> DynamicActionView {
    DynamicActionView { action_type: ActionType::Mouse, input: Seq::empty(), x, y, delay }
}

/// The chain that invites `battletag` to team 1 (blue) or team 2 (red): open
/// the invite dialog, pick the team's slot, type the battletag and confirm.
/// Only the red team's slot is in a different place.
pub open spec fn invite_chain(battletag: Seq<char>, team: u8) -> Seq<DynamicActionView> {
    seq![
        mouse(1675, 250, 25),
        mouse(1244, 780, 150),
        mouse(1204, if team == 2 { 906i32 } else { 867i32 }, 25),
        mouse(1159, 242, 25),
        DynamicActionView {
            action_type: ActionType::Keyboard,
            input: battletag,
            x: 0,
            y: 0,
            delay: 25,
        },
        mouse(1026, 892, 500),
    ]
}

impl DynamicActionChain {
    /// The actions, in order.
    pub closed spec fn actions(&self) -> Seq<DynamicActionView> {
        self.0@.map_values(|a: DynamicAction| a@)
    }

    /// The chain that invites `battletag` to the lobby; `team` 1 is blue and
    /// 2 is red.
    pub fn generate_invite_chain(battletag: String, team: u8) -> (r: Self)
        ensures
            r.actions() == invite_chain(battletag@, team),
    {
        let mut ret: Vec<DynamicAction> = Vec::new();
        ret.push(DynamicAction::new(ActionType::Mouse, String::new(), 1675, 250, 25));
        ret.push(DynamicAction::new(ActionType::Mouse, String::new(), 1244, 780, 150));
        ret.push(DynamicAction::new(ActionType::Mouse, String::new(), 1204, 867, 25));
        ret.push(DynamicAction::new(ActionType::Mouse, String::new(), 1159, 242, 25));
        ret.push(DynamicAction::new(ActionType::Keyboard, battletag, 0, 0, 25));
        ret.push(DynamicAction::new(ActionType::Mouse, String::new(), 1026, 892, 500));
        // Red team invite adjustment.
        if team == 2 {
            let moved = DynamicAction::new(ActionType::Mouse, String::new(), 1204, 906, 25);
            ret.set(2, moved);
        }
        let r = Self(ret);
        assert(r.actions() =~= invite_chain(battletag@, team));
        r
    }

    /// Plans every action of the chain, in order.
    pub fn invoke(&self, plan: &mut Vec<InputStep>)
        requires
            forall|i: int| 0 <= i < self.actions().len() ==> #[trigger] self.actions()[i].delay * 5
                <= u64::MAX,
        ensures
            plan_view(final(plan)@) == plan_view(old(plan)@) + dynamic_chain_steps(self.actions()),
    {
        proof {
            lemma_chain_steps_views(self.0@);
        }
        assert(chain_plannable(self.0@)) by {
            assert forall|i: int| 0 <= i < self.0@.len() implies #[trigger] self.0@[i].plannable() by {
                assert(self.actions()[i] == self.0@[i]@);
            }
        }
        invoke_all(&self.0, plan);
    }
}

proof fn lemma_chain_steps_views(v: Seq<DynamicAction>)
    ensures
        chain_steps(v) == dynamic_chain_steps(v.map_values(|a: DynamicAction| a@)),
    decreases v.len(),
{
    if v.len() > 0 {
        lemma_chain_steps_views(v.drop_last());
        assert(v.drop_last().map_values(|a: DynamicAction| a@) =~= v.map_values(
            |a: DynamicAction| a@,
        ).drop_last());
    }
}

/// The steps of a list of dynamic actions.
pub open spec fn dynamic_chain_steps(chain: Seq<DynamicActionView>) -> Seq<Step>
    decreases chain.len(),
{
    if chain.len() == 0 {
        Seq::empty()
    } else {
        dynamic_chain_steps(chain.drop_last()) + dynamic_steps(chain.last())
    }
}

/// An invitation is six actions: open the invite dialog, pick the team's
/// slot, type the battletag and confirm. Blue (team 1) and red (team 2)
/// invitations differ only in the slot picked: blue's at (1204, 867), red's
/// at (1204, 906); the battletag is typed by the fifth action.
pub proof fn law_invite_chains_differ_only_in_slot(battletag: Seq<char>)
    ensures
        invite_chain(battletag, 1).len() == 6,
        invite_chain(battletag, 2).len() == 6,
        forall|i: int| 0 <= i < 6 && i != 2 ==> #[trigger] invite_chain(battletag, 1)[i] == invite_chain(
            battletag,
            2,
        )[i],
        invite_chain(battletag, 1)[2] == mouse(1204, 867, 25),
        invite_chain(battletag, 2)[2] == mouse(1204, 906, 25),
        invite_chain(battletag, 1)[4].action_type == ActionType::Keyboard,
        invite_chain(battletag, 1)[4].input == battletag,
{
}

} // verus!
