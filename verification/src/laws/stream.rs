//! The stream of snapshots that a series of updates makes.

use crate::status::apply;
use crate::status::observations;
use crate::status::StateView;
use crate::status::StatusView;
use crate::status::UpdateView;
use vstd::prelude::*;

verus! {

/// A new task index sets the repetition and the step to 0, a new repetition
/// index sets the step to 0, and no update changes anything else but what
/// it names.
pub proof fn law_update_resets(status: StatusView, state: StateView, index: nat)
    ensures
        apply(status, UpdateView::State(state)) == (StatusView { state, ..status }),
        apply(status, UpdateView::Task(index)) == (StatusView {
            state: status.state,
            task: index,
            craft: 0,
            step: 0,
        }),
        apply(status, UpdateView::Craft(index)) == (StatusView {
            state: status.state,
            task: status.task,
            craft: index,
            step: 0,
        }),
        apply(status, UpdateView::Step(index)) == (StatusView { step: index, ..status }),
{
}

/// Publishing a series of updates yields one observation for each update,
/// in the order of the updates: each observation is the one before it (for
/// the first, the status at the start) with its update applied.
pub proof fn law_one_observation_per_update(status: StatusView, updates: Seq<UpdateView>)
    ensures
        observations(status, updates).len() == updates.len(),
        forall|i: int|
            0 <= i < updates.len() ==> #[trigger] observations(status, updates)[i] == apply(
                if i == 0 {
                    status
                } else {
                    observations(status, updates)[i - 1]
                },
                updates[i],
            ),
{
    assert forall|i: int| 0 <= i < updates.len() implies #[trigger] observations(
        status,
        updates,
    )[i] == apply(
        if i == 0 {
            status
        } else {
            observations(status, updates)[i - 1]
        },
        updates[i],
    ) by {
        assert(updates.take(i + 1).drop_last() == updates.take(i));
    }
}

} // verus!
