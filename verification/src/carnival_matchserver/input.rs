//! Synthetic input as data: the match server plans the mouse and keyboard
//! input it wants as a list of steps, and the program around the library
//! performs them on the desktop in order.

use vstd::prelude::*;
use vstd::string::*;
use crate::text::push_char;

verus! {

/// The keys that the match server presses.
#[derive(Clone, Copy, PartialEq, Eq, Structural, Debug)]
pub enum Key {
    Control,
    DownArrow,
    RightArrow,
    Space,
}

/// One step of synthetic input.
#[derive(Debug)]
pub enum InputStep {
    /// Move the cursor to `(x, y)`; if that worked, wait 200 ms and click the
    /// left mouse button.
    Click { x: i32, y: i32 },
    /// Wait this many milliseconds.
    Sleep { millis: u64 },
    /// Type this text.
    SendStr { text: String },
    /// Press and release a key.
    Send { key: Key },
    /// Press a key down.
    Press { key: Key },
    /// Let a key up.
    Release { key: Key },
}

/// The mathematical meaning of an input step.
pub enum Step {
    Click(i32, i32),
    Sleep(u64),
    SendStr(Seq<char>),
    Send(Key),
    Press(Key),
    Release(Key),
}

impl View for InputStep {
    type V = Step;

    open spec fn view(&self) -> Step {
        match self {
            InputStep::Click { x, y } => Step::Click(*x, *y),
            InputStep::Sleep { millis } => Step::Sleep(*millis),
            InputStep::SendStr { text } => Step::SendStr(text@),
            InputStep::Send { key } => Step::Send(*key),
            InputStep::Press { key } => Step::Press(*key),
            InputStep::Release { key } => Step::Release(*key),
        }
    }
}

/// The meaning of a plan of input steps.
pub open spec fn plan_view(v: Seq<InputStep>) -> Seq<Step> {
    v.map_values(|s: InputStep| s@)
}

/// Appending a step to a plan appends its meaning.
pub proof fn lemma_plan_push(v: Seq<InputStep>, s: InputStep)
    ensures
        plan_view(v.push(s)) == plan_view(v).push(s@),
{
    assert(plan_view(v.push(s)) =~= plan_view(v).push(s@));
}

/// Appends one step to a plan.
pub fn push_step(plan: &mut Vec<InputStep>, step: InputStep)
    ensures
        plan_view(final(plan)@) == plan_view(old(plan)@).push(step@),
{
    plan.push(step);
    proof {
        lemma_plan_push(old(plan)@, final(plan)@.last());
    }
}

/// The steps that type each character of `s`: a pause of `delay`, then the
/// character.
pub open spec fn typed_chars(s: Seq<char>, delay: u64) -> Seq<Step>
    decreases s.len(),
{
    if s.len() == 0 {
        Seq::empty()
    } else {
        typed_chars(s.drop_last(), delay) + seq![Step::Sleep(delay), Step::SendStr(seq![s.last()])]
    }
}

/// The steps of `type_str`: each character typed after a pause of `delay`,
/// then a final pause of five times `delay`.
pub open spec fn type_str_steps(s: Seq<char>, delay: u64) -> Seq<Step> {
    typed_chars(s, delay).push(Step::Sleep((delay * 5) as u64))
}

/// Plans typing `input` one character at a time with `delay` ms between
/// characters, then a pause of five times `delay`.
pub fn type_str(plan: &mut Vec<InputStep>, input: &str, delay: u64)
    requires
        delay * 5 <= u64::MAX,
    ensures
        plan_view(final(plan)@) == plan_view(old(plan)@) + type_str_steps(input@, delay),
{
    let n = input.unicode_len();
    let mut i: usize = 0;
    assert(input@.take(0) =~= Seq::<char>::empty());
    assert(plan_view(plan@) =~= plan_view(old(plan)@) + typed_chars(input@.take(0), delay));
    while i < n
        invariant
            n == input@.len(),
            i <= n,
            plan_view(plan@) == plan_view(old(plan)@) + typed_chars(input@.take(i as int), delay),
        decreases n - i,
    {
        let c = input.get_char(i);
        let mut one = String::new();
        push_char(&mut one, c);
        push_step(plan, InputStep::Sleep { millis: delay });
        push_step(plan, InputStep::SendStr { text: one });
        proof {
            assert(input@.take(i + 1).drop_last() =~= input@.take(i as int));
            assert(input@.take(i + 1).last() == c);
            assert(one@ =~= seq![c]);
            assert(plan_view(plan@) =~= plan_view(old(plan)@) + typed_chars(input@.take(i + 1), delay));
        }
        i = i + 1;
    }
    push_step(plan, InputStep::Sleep { millis: delay * 5 });
    assert(input@.take(n as int) =~= input@);
    assert(plan_view(plan@) =~= plan_view(old(plan)@) + type_str_steps(input@, delay));
}

/// Plans a key press followed by a pause of `delay` ms.
pub fn keypress(plan: &mut Vec<InputStep>, key: Key, delay: u64)
    ensures
        plan_view(final(plan)@) == plan_view(old(plan)@) + seq![Step::Send(key), Step::Sleep(delay)],
{
    push_step(plan, InputStep::Send { key });
    push_step(plan, InputStep::Sleep { millis: delay });
    assert(plan_view(plan@) =~= plan_view(old(plan)@) + seq![Step::Send(key), Step::Sleep(delay)]);
}

/// The steps of holding a key for `held_for` ms and pausing as long again.
pub open spec fn hold_steps(key: Key, held_for: u64) -> Seq<Step> {
    seq![Step::Press(key), Step::Sleep(held_for), Step::Release(key), Step::Sleep(held_for)]
}

/// Plans holding `key` down for `held_for` ms, then a pause of `held_for` ms.
pub fn keypress_for_duration(plan: &mut Vec<InputStep>, key: Key, held_for: u64)
    ensures
        plan_view(final(plan)@) == plan_view(old(plan)@) + hold_steps(key, held_for),
{
    push_step(plan, InputStep::Press { key });
    push_step(plan, InputStep::Sleep { millis: held_for });
    push_step(plan, InputStep::Release { key });
    push_step(plan, InputStep::Sleep { millis: held_for });
    assert(plan_view(plan@) =~= plan_view(old(plan)@) + hold_steps(key, held_for));
}


/// An action that can be planned as input steps.
pub trait Plannable {
    /// The steps that invoking the action plans.
    spec fn steps(&self) -> Seq<Step>;

    /// Whether the action can be planned without overflow.
    spec fn plannable(&self) -> bool;

    /// Appends the action's steps to `plan`.
    fn invoke(&self, plan: &mut Vec<InputStep>)
        requires
            self.plannable(),
        ensures
            plan_view(final(plan)@) == plan_view(old(plan)@) + self.steps(),
    ;
}

/// The steps of a chain of actions, in order.
pub open spec fn chain_steps<A: Plannable>(chain: Seq<A>) -> Seq<Step>
    decreases chain.len(),
{
    if chain.len() == 0 {
        Seq::empty()
    } else {
        chain_steps(chain.drop_last()) + chain.last().steps()
    }
}

/// Every action of the chain can be planned.
pub open spec fn chain_plannable<A: Plannable>(chain: Seq<A>) -> bool {
    forall|i: int| 0 <= i < chain.len() ==> #[trigger] chain[i].plannable()
}

/// Appends the steps of every action of `chain`, in order.
pub fn invoke_all<A: Plannable>(chain: &Vec<A>, plan: &mut Vec<InputStep>)
    requires
        chain_plannable(chain@),
    ensures
        plan_view(final(plan)@) == plan_view(old(plan)@) + chain_steps(chain@),
{
    let mut i: usize = 0;
    assert(chain@.take(0) =~= Seq::<A>::empty());
    assert(plan_view(plan@) =~= plan_view(old(plan)@) + chain_steps(chain@.take(0)));
    while i < chain.len()
        invariant
            i <= chain@.len(),
            chain_plannable(chain@),
            plan_view(plan@) == plan_view(old(plan)@) + chain_steps(chain@.take(i as int)),
        decreases chain@.len() - i,
    {
        assert(chain@[i as int].plannable());
        chain[i].invoke(plan);
        proof {
            assert(chain@.take(i + 1).drop_last() =~= chain@.take(i as int));
            assert(chain@.take(i + 1).last() == chain@[i as int]);
            assert(plan_view(plan@) =~= plan_view(old(plan)@) + chain_steps(chain@.take(i + 1)));
        }
        i = i + 1;
    }
    assert(chain@.take(chain@.len() as int) =~= chain@);
}

} // verus!
