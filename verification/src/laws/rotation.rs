//! The step indices that a rotation reports.

use crate::craft::action_script;
use crate::craft::actions_script;
use crate::craft::execute_actions_script;
use crate::craft::finishing;
use crate::craft::send_action_script;
use crate::script::pause;
use crate::script::reported;
use crate::script::CommandView;
use crate::status::StateView;
use crate::status::UpdateView;
use crate::task::cooldown_ms;
use crate::task::ActionView;
use vstd::prelude::*;

verus! {

/// The step indices that `script` reports, in order.
pub open spec fn steps_of(script: Seq<CommandView>) -> Seq<nat>
    decreases script.len(),
{
    if script.len() == 0 {
        Seq::empty()
    } else {
        match script.last() {
            CommandView::Report(UpdateView::Step(step)) => steps_of(script.drop_last()).push(step),
            _ => steps_of(script.drop_last()),
        }
    }
}

/// The step indices of two scripts in a row follow one another.
pub proof fn lemma_steps_of_concat(a: Seq<CommandView>, b: Seq<CommandView>)
    ensures
        steps_of(a + b) == steps_of(a) + steps_of(b),
    decreases b.len(),
{
    if b.len() > 0 {
        assert((a + b).drop_last() == a + b.drop_last());
        lemma_steps_of_concat(a, b.drop_last());
    }
}

/// A script that reports nothing reports no step index.
pub proof fn lemma_steps_of_inputs(script: Seq<CommandView>)
    requires
        forall|i: int| 0 <= i < script.len() ==> script[i] is Input,
    ensures
        steps_of(script) == Seq::<nat>::empty(),
    decreases script.len(),
{
    if script.len() > 0 {
        lemma_steps_of_inputs(script.drop_last());
    }
}

/// One action of a rotation reports its position and no other step index.
pub proof fn lemma_steps_of_action(action: ActionView, position: nat)
    ensures
        steps_of(action_script(action, position)) == seq![position],
{
    let reports = seq![
        reported(UpdateView::State(StateView::Crafting(action.name))),
        reported(UpdateView::Step(position)),
    ];
    let inputs = send_action_script(action.name) + seq![pause(cooldown_ms(action.wait))];
    assert(action_script(action, position) == reports + inputs);
    lemma_steps_of_concat(reports, inputs);
    lemma_steps_of_inputs(inputs);
    reveal_with_fuel(steps_of, 3);
}

/// The first `n` actions of a rotation report the step indices 0 to
/// `n - 1`, each once and in this order.
pub proof fn lemma_steps_of_actions(actions: Seq<ActionView>, n: nat)
    ensures
        steps_of(actions_script(actions, n)) == Seq::new(n, |i: int| i as nat),
    decreases n,
{
    if n > 0 {
        let before = (n - 1) as nat;
        lemma_steps_of_actions(actions, before);
        lemma_steps_of_action(actions[n - 1], before);
        lemma_steps_of_concat(
            actions_script(actions, before),
            action_script(actions[n - 1], before),
        );
    }
}

/// A rotation of `L` actions reports the step indices 0 to `L`, each once
/// and in this order. The index `L`, one past the last action, is the last
/// but one command of the script; the last one sets the state to
/// `Crafting` with the name `finishing()`.
pub proof fn law_steps_count_up(actions: Seq<ActionView>)
    ensures
        steps_of(execute_actions_script(actions)) == Seq::new(
            actions.len() + 1,
            |i: int| i as nat,
        ),
        ({
            let script = execute_actions_script(actions);
            &&& script.len() >= 2
            &&& script[script.len() - 2] == reported(UpdateView::Step(actions.len()))
            &&& script[script.len() - 1] == reported(
                UpdateView::State(StateView::Crafting(finishing())),
            )
        }),
{
    let rotation = actions_script(actions, actions.len());
    let end = seq![
        reported(UpdateView::Step(actions.len())),
        reported(UpdateView::State(StateView::Crafting(finishing()))),
    ];
    lemma_steps_of_actions(actions, actions.len());
    lemma_steps_of_concat(rotation, end);
    reveal_with_fuel(steps_of, 3);
}

} // verus!
