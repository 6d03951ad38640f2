//! Click chains, loaded from `action_chains.toml`.

use vstd::prelude::*;
use crate::chains::ChainTable;
use crate::carnival_matchserver::input::{
    InputStep, Step, Plannable, plan_view, push_step, chain_steps, invoke_all,
};

verus! {

/// A click at `(x, y)`, then a pause of `delay` ms.
#[derive(Clone, Copy, Debug)]
pub struct Action {
    pub x: i32,
    pub y: i32,
    pub delay: u64,
}

impl Plannable for Action {
    open spec fn steps(&self) -> Seq<Step> {
        seq![Step::Click(self.x, self.y), Step::Sleep(self.delay)]
    }

    open spec fn plannable(&self) -> bool {
        true
    }

    fn invoke(&self, plan: &mut Vec<InputStep>) {
        push_step(plan, InputStep::Click { x: self.x, y: self.y });
        push_step(plan, InputStep::Sleep { millis: self.delay });
        assert(plan_view(plan@) =~= plan_view(old(plan)@) + self.steps());
    }
}

/// Named chains of clicks.
pub struct Actions {
    pub chains: ChainTable<Action>,
}

impl Actions {
    /// Plans the chain named `name`, and returns the chains for further use.
    /// A missing chain is a fatal error, so the chain must be present.
    pub fn invoke_chain<'a>(&'a self, name: String, plan: &mut Vec<InputStep>) -> (r: &'a Self)
        requires
            self.chains.chain(name@) is Some,
        ensures
            r == self,
            plan_view(final(plan)@) == plan_view(old(plan)@) + chain_steps(
                self.chains.chain(name@)->0,
            ),
    {
        let chain = self.chains.get(name.as_str()).unwrap();
        invoke_all(chain, plan);
        self
    }
}

} // verus!
