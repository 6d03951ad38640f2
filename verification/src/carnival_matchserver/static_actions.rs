//! Fixed action chains, loaded from `action_chains.json`: clicks at fixed
//! screen positions and fixed text, each followed by a pause.

use vstd::prelude::*;
use crate::chains::ChainTable;
use crate::carnival_matchserver::input::{
    InputStep, Step, Plannable, plan_view, push_step, chain_steps, chain_plannable, invoke_all,
};

verus! {

/// A click at a fixed position, then a pause of `delay` ms.
#[derive(Clone, Copy, Debug)]
pub struct MouseAction {
    pub x: i32,
    pub y: i32,
    pub delay: u64,
}

/// Typing fixed text, then a pause of `delay` ms.
#[derive(Clone, Debug)]
pub struct KeyboardAction {
    pub input: String,
    pub delay: u64,
}

/// One action of a fixed chain.
#[derive(Clone, Debug)]
pub enum ActionStyle {
    MouseAction(MouseAction),
    KeyboardAction(KeyboardAction),
}

impl Plannable for MouseAction {
    open spec fn steps(&self) -> Seq<Step> {
        seq![Step::Click(self.x, self.y), Step::Sleep(self.delay)]
    }

    open spec fn plannable(&self) -> bool {
        true
    }

    fn invoke(&self, plan: &mut Vec<InputStep>) {
        push_step(plan, InputStep::Click { x: self.x, y: self.y });
        push_step(plan, InputStep::Sleep { millis: self.delay });
        assert(plan_view(plan@) =~= plan_view(old(plan)@) + self.steps());
    }
}

impl Plannable for KeyboardAction {
    open spec fn steps(&self) -> Seq<Step> {
        seq![Step::SendStr(self.input@), Step::Sleep(self.delay)]
    }

    open spec fn plannable(&self) -> bool {
        true
    }

    fn invoke(&self, plan: &mut Vec<InputStep>) {
        push_step(plan, InputStep::SendStr { text: self.input.clone() });
        push_step(plan, InputStep::Sleep { millis: self.delay });
        assert(plan_view(plan@) =~= plan_view(old(plan)@) + self.steps());
    }
}

impl Plannable for ActionStyle {
    open spec fn steps(&self) -> Seq<Step> {
        match self {
            ActionStyle::MouseAction(a) => a.steps(),
            ActionStyle::KeyboardAction(a) => a.steps(),
        }
    }

    open spec fn plannable(&self) -> bool {
        true
    }

    fn invoke(&self, plan: &mut Vec<InputStep>) {
        match self {
            ActionStyle::KeyboardAction(action) => action.invoke(plan),
            ActionStyle::MouseAction(action) => action.invoke(plan),
        }
    }
}

/// Named chains of fixed actions.
pub struct ActionChain(pub ChainTable<ActionStyle>);

impl ActionChain {
    /// The chain stored under `name`, if any.
    pub open spec fn chain(&self, name: Seq<char>) -> Option<Seq<ActionStyle>> {
        self.0.chain(name)
    }

    /// No chains at all.
    pub fn new() -> (r: Self)
        ensures
            forall|name: Seq<char>| r.chain(name) is None,
    {
        ActionChain(ChainTable::new())
    }

    /// Plans the chain named `name`, and returns the table for further chains.
    /// A missing chain is a fatal error, so the chain must be present.
    pub fn invoke_chain<'a>(&'a self, name: &str, plan: &mut Vec<InputStep>) -> (r: &'a Self)
        requires
            self.chain(name@) is Some,
        ensures
            r == self,
            plan_view(final(plan)@) == plan_view(old(plan)@) + chain_steps(
                self.chain(name@)->0,
            ),
    {
        let chain = self.0.get(name).unwrap();
        invoke_all(chain, plan);
        self
    }
}

} // verus!
