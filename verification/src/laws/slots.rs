//! Role action slots are filled once and stay filled until they are emptied.

use crate::craft::aaction_script;
use crate::craft::configure_script;
use crate::craft::configured_actions;
use crate::role_actions::add_action_result;
use crate::role_actions::add_action_script;
use crate::role_actions::clear_result;
use crate::script::pause;
use crate::script::CommandView;
use crate::task::ActionView;
use vstd::prelude::*;

verus! {

/// A role action that is in a slot is not turned on again, and the slots
/// stay as they are; one that is in no slot is turned on and is in a slot
/// from then on.
pub proof fn law_add_action_turns_on_once(active: Seq<Seq<char>>, name: Seq<char>)
    ensures
        active.contains(name) ==> add_action_script(active, name) == Seq::<CommandView>::empty()
            && add_action_result(active, name) == active,
        !active.contains(name) ==> add_action_script(active, name) == aaction_script("on"@, name),
        add_action_result(active, name).contains(name),
        add_action_script(add_action_result(active, name), name) == Seq::<CommandView>::empty(),
        forall|other: Seq<char>|
            active.contains(other) ==> #[trigger] add_action_result(active, name).contains(other),
{
    if !active.contains(name) {
        assert(active.push(name)[active.len() as int] == name);
        assert forall|other: Seq<char>| active.contains(other) implies #[trigger] active.push(
            name,
        ).contains(other) by {
            let i = choose|i: int| 0 <= i < active.len() && active[i] == other;
            assert(active.push(name)[i] == other);
        }
    }
}

/// Emptying the slots leaves none of them taken, whatever they held, so
/// emptying them twice comes to the same as emptying them once.
pub proof fn law_clear_is_idempotent(active: Seq<Seq<char>>)
    ensures
        clear_result(active) == Seq::<Seq<char>>::empty(),
        clear_result(clear_result(active)) == clear_result(active),
        forall|name: Seq<char>| !clear_result(active).contains(name),
{
}

/// What is in a slot stays there while the role actions of a rotation are
/// seen to.
pub proof fn law_configure_keeps_slots(
    known: Seq<Seq<char>>,
    active: Seq<Seq<char>>,
    actions: Seq<ActionView>,
    n: nat,
    name: Seq<char>,
)
    requires
        active.contains(name),
    ensures
        configured_actions(known, active, actions, n).contains(name),
    decreases n,
{
    if n > 0 {
        law_configure_keeps_slots(known, active, actions, (n - 1) as nat, name);
        law_add_action_turns_on_once(
            configured_actions(known, active, actions, (n - 1) as nat),
            actions[n - 1].name,
        );
    }
}

/// Every role action among the first `n` actions of a rotation is in a slot
/// once these actions have been seen to.
pub proof fn law_configure_fills_slots(
    known: Seq<Seq<char>>,
    active: Seq<Seq<char>>,
    actions: Seq<ActionView>,
    n: nat,
    i: int,
)
    requires
        0 <= i < n,
        known.contains(actions[i].name),
    ensures
        configured_actions(known, active, actions, n).contains(actions[i].name),
    decreases n,
{
    let before = configured_actions(known, active, actions, (n - 1) as nat);
    law_add_action_turns_on_once(before, actions[n - 1].name);
    if i < n - 1 {
        law_configure_fills_slots(known, active, actions, (n - 1) as nat, i);
    }
}

/// What seeing to the first `n` actions of a rotation takes when every role
/// action among them is in a slot already: a quarter of a second for each
/// of these role actions, and nothing else.
pub open spec fn settle_script(known: Seq<Seq<char>>, actions: Seq<ActionView>, n: nat) -> Seq<
    CommandView,
>
    decreases n,
{
    if n == 0 {
        Seq::empty()
    } else {
        settle_script(known, actions, (n - 1) as nat) + (if known.contains(actions[n - 1].name) {
            seq![pause(250)]
        } else {
            Seq::empty()
        })
    }
}

/// Where every role action among the first `n` actions of a rotation is in
/// a slot, seeing to these actions turns no role action on and leaves the
/// slots as they are.
pub proof fn law_configure_turns_nothing_on_twice(
    known: Seq<Seq<char>>,
    active: Seq<Seq<char>>,
    actions: Seq<ActionView>,
    n: nat,
)
    requires
        forall|i: int|
            0 <= i < n && known.contains(actions[i].name) ==> active.contains(
                #[trigger] actions[i].name,
            ),
    ensures
        configured_actions(known, active, actions, n) == active,
        configure_script(known, active, actions, n) == settle_script(known, actions, n),
    decreases n,
{
    if n > 0 {
        law_configure_turns_nothing_on_twice(known, active, actions, (n - 1) as nat);
    }
}

/// A task that follows one with the same rotation, with no switch of
/// gearsets in between, turns no role action on.
pub proof fn law_shared_role_actions_cost_nothing(
    known: Seq<Seq<char>>,
    active: Seq<Seq<char>>,
    actions: Seq<ActionView>,
)
    ensures
        ({
            let after = configured_actions(known, active, actions, actions.len());
            &&& configured_actions(known, after, actions, actions.len()) == after
            &&& configure_script(known, after, actions, actions.len()) == settle_script(
                known,
                actions,
                actions.len(),
            )
        }),
{
    let after = configured_actions(known, active, actions, actions.len());
    assert forall|i: int|
        0 <= i < actions.len() && known.contains(actions[i].name) implies after.contains(
        #[trigger] actions[i].name,
    ) by {
        law_configure_fills_slots(known, active, actions, actions.len(), i);
    }
    law_configure_turns_nothing_on_twice(known, after, actions, actions.len());
}

} // verus!
