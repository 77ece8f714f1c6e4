//! The status updates that a batch reports, whatever else it sends.

use crate::craft::aaction_script;
use crate::craft::active_after_gearset;
use crate::craft::action_script;
use crate::craft::actions_script;
use crate::craft::begin_task_script;
use crate::craft::carried_after_tasks;
use crate::craft::configure_script;
use crate::craft::craft_items_script;
use crate::craft::craft_script;
use crate::craft::crafts_script;
use crate::craft::end_task_script;
use crate::craft::execute_task_script;
use crate::craft::finish_craft_script;
use crate::craft::finishing;
use crate::craft::forward_pass;
use crate::craft::reverse_pass;
use crate::craft::select_materials_script;
use crate::craft::send_action_script;
use crate::craft::task_script;
use crate::craft::tasks_script;
use crate::craft::Carried;
use crate::input::Key;
use crate::script::key_press;
use crate::script::pause;
use crate::script::reported;
use crate::script::updates_of;
use crate::script::CommandView;
use crate::status::StateView;
use crate::status::UpdateView;
use crate::task::cooldown_ms;
use crate::task::ActionView;
use crate::task::MaterialView;
use crate::task::TaskView;
use vstd::prelude::*;

verus! {

/// Whether `script` holds nothing but inputs.
pub open spec fn all_inputs(script: Seq<CommandView>) -> bool {
    forall|i: int| 0 <= i < script.len() ==> #[trigger] script[i] is Input
}

/// The updates of two scripts in a row follow one another.
pub proof fn lemma_updates_of_concat(a: Seq<CommandView>, b: Seq<CommandView>)
    ensures
        updates_of(a + b) == updates_of(a) + updates_of(b),
    decreases b.len(),
{
    if b.len() > 0 {
        assert((a + b).drop_last() == a + b.drop_last());
        lemma_updates_of_concat(a, b.drop_last());
    }
}

/// A script of inputs reports nothing.
pub proof fn lemma_updates_of_inputs(script: Seq<CommandView>)
    requires
        all_inputs(script),
    ensures
        updates_of(script) == Seq::<UpdateView>::empty(),
    decreases script.len(),
{
    if script.len() > 0 {
        lemma_updates_of_inputs(script.drop_last());
    }
}

/// A script of two reports reports the two updates.
pub proof fn lemma_updates_of_pair(first: UpdateView, second: UpdateView)
    ensures
        updates_of(seq![reported(first), reported(second)]) == seq![first, second],
        updates_of(seq![reported(first)]) == seq![first],
{
    reveal_with_fuel(updates_of, 3);
}

/// Seeing to the role actions of a rotation sends inputs only.
pub proof fn lemma_configure_sends_inputs(
    known: Seq<Seq<char>>,
    active: Seq<Seq<char>>,
    actions: Seq<ActionView>,
    n: nat,
)
    ensures
        all_inputs(configure_script(known, active, actions, n)),
    decreases n,
{
    if n > 0 {
        lemma_configure_sends_inputs(known, active, actions, (n - 1) as nat);
    }
}

/// Both passes over the materials send inputs only.
pub proof fn lemma_passes_send_inputs(materials: Seq<MaterialView>, n: nat)
    ensures
        all_inputs(reverse_pass(materials, n)),
        all_inputs(forward_pass(materials, n)),
    decreases n,
{
    if n > 0 {
        lemma_passes_send_inputs(materials, (n - 1) as nat);
    }
}

/// The updates that the first `n` actions of a rotation report: for each
/// action its name, and then its position.
pub open spec fn rotation_updates(actions: Seq<ActionView>, n: nat) -> Seq<UpdateView>
    decreases n,
{
    if n == 0 {
        Seq::empty()
    } else {
        rotation_updates(actions, (n - 1) as nat) + seq![
            UpdateView::State(StateView::Crafting(actions[n - 1].name)),
            UpdateView::Step((n - 1) as nat),
        ]
    }
}

/// The updates that repetition number `craft` of `task` reports: the
/// number of the repetition, that it is being set up, the rotation, the
/// step index one past the last action and the name `finishing()`.
pub open spec fn craft_updates(task: TaskView, craft: nat) -> Seq<UpdateView> {
    seq![UpdateView::Craft(craft), UpdateView::State(StateView::Setup)] + rotation_updates(
        task.actions,
        task.actions.len(),
    ) + seq![
        UpdateView::Step(task.actions.len()),
        UpdateView::State(StateView::Crafting(finishing())),
    ]
}

/// The updates that the first `n` repetitions of `task` report.
pub open spec fn crafts_updates(task: TaskView, n: nat) -> Seq<UpdateView>
    decreases n,
{
    if n == 0 {
        Seq::empty()
    } else {
        crafts_updates(task, (n - 1) as nat) + craft_updates(task, n)
    }
}

/// The updates that `task` reports as task number `index` of its batch: its
/// number, that it is being initialized, its repetitions, and that it is
/// done.
pub open spec fn task_updates(task: TaskView, index: nat) -> Seq<UpdateView> {
    seq![UpdateView::Task(index), UpdateView::State(StateView::Initializing)] + crafts_updates(
        task,
        task.count,
    ) + seq![UpdateView::State(StateView::Done)]
}

/// The updates that the first `n` tasks of a batch report.
pub open spec fn batch_updates(tasks: Seq<TaskView>, n: nat) -> Seq<UpdateView>
    decreases n,
{
    if n == 0 {
        Seq::empty()
    } else {
        batch_updates(tasks, (n - 1) as nat) + task_updates(tasks[n - 1], (n - 1) as nat)
    }
}

/// The first `n` actions of a rotation report their names and positions.
pub proof fn lemma_rotation_updates(actions: Seq<ActionView>, n: nat)
    ensures
        updates_of(actions_script(actions, n)) == rotation_updates(actions, n),
    decreases n,
{
    if n > 0 {
        let before = (n - 1) as nat;
        let action = actions[n - 1];
        let reports = seq![
            reported(UpdateView::State(StateView::Crafting(action.name))),
            reported(UpdateView::Step(before)),
        ];
        let inputs = send_action_script(action.name) + seq![
            pause(cooldown_ms(action.wait)),
        ];
        lemma_rotation_updates(actions, before);
        assert(action_script(action, before) == reports + inputs);
        lemma_updates_of_pair(
            UpdateView::State(StateView::Crafting(action.name)),
            UpdateView::Step(before),
        );
        lemma_updates_of_inputs(inputs);
        lemma_updates_of_concat(reports, inputs);
        lemma_updates_of_concat(actions_script(actions, before), action_script(action, before));
    }
}

/// A repetition reports `craft_updates`.
pub proof fn lemma_craft_updates(task: TaskView, craft: nat)
    ensures
        updates_of(craft_script(task, craft)) == craft_updates(task, craft),
{
    let head = seq![
        reported(UpdateView::Craft(craft)),
        reported(UpdateView::State(StateView::Setup)),
    ];
    let materials = select_materials_script(task.item.materials);
    let start = seq![
        key_press(Key::Confirm),
        pause(2000),
    ];
    let rotation = actions_script(task.actions, task.actions.len());
    let end = seq![
        reported(UpdateView::Step(task.actions.len())),
        reported(UpdateView::State(StateView::Crafting(finishing()))),
    ];
    let finish = finish_craft_script(task.collectable);
    lemma_passes_send_inputs(task.item.materials, task.item.materials.len());
    lemma_updates_of_pair(UpdateView::Craft(craft), UpdateView::State(StateView::Setup));
    lemma_updates_of_pair(
        UpdateView::Step(task.actions.len()),
        UpdateView::State(StateView::Crafting(finishing())),
    );
    lemma_rotation_updates(task.actions, task.actions.len());
    lemma_updates_of_inputs(materials + start);
    lemma_updates_of_inputs(finish);
    lemma_updates_of_concat(rotation, end);
    lemma_updates_of_concat(head, materials + start);
    lemma_updates_of_concat(head + (materials + start), rotation + end);
    lemma_updates_of_concat(head + (materials + start) + (rotation + end), finish);
    assert(craft_script(task, craft) == head + (materials + start) + (rotation + end) + finish);
}

/// The first `n` repetitions report `crafts_updates`.
pub proof fn lemma_crafts_updates(task: TaskView, n: nat)
    ensures
        updates_of(crafts_script(task, n)) == crafts_updates(task, n),
    decreases n,
{
    if n > 0 {
        lemma_crafts_updates(task, (n - 1) as nat);
        lemma_craft_updates(task, n);
        lemma_updates_of_concat(crafts_script(task, (n - 1) as nat), craft_script(task, n));
    }
}

/// Whatever gearset is on and whatever the role action slots hold, a task
/// reports its number, that it is being initialized, each of its
/// repetitions, and at last that it is done; it reports nothing else.
pub proof fn law_task_reports(known: Seq<Seq<char>>, before: Carried, task: TaskView, index: nat)
    ensures
        updates_of(task_script(known, before, task, index)) == task_updates(task, index),
{
    let head = seq![
        reported(UpdateView::Task(index)),
        reported(UpdateView::State(StateView::Initializing)),
    ];
    let begin = begin_task_script(known, before, task, index);
    let setup = begin.skip(2);
    let repetitions = execute_task_script(task);
    let end = end_task_script(task);
    let leave = end.take(end.len() - 1);
    let done = seq![reported(UpdateView::State(StateView::Done))];
    lemma_configure_sends_inputs(
        known,
        active_after_gearset(before.gearset, task.gearset, before.active),
        task.actions,
        task.actions.len(),
    );
    assert(begin == head + setup);
    lemma_updates_of_pair(UpdateView::Task(index), UpdateView::State(StateView::Initializing));
    lemma_updates_of_pair(UpdateView::State(StateView::Done), UpdateView::State(StateView::Done));
    lemma_updates_of_inputs(setup);
    lemma_updates_of_inputs(leave);
    lemma_crafts_updates(task, task.count);
    lemma_updates_of_concat(head, setup);
    lemma_updates_of_concat(leave, done);
    lemma_updates_of_concat(begin, repetitions);
    lemma_updates_of_concat(begin + repetitions, end);
}

/// The first `n` tasks of a batch report `batch_updates`.
pub proof fn lemma_tasks_report(known: Seq<Seq<char>>, tasks: Seq<TaskView>, n: nat)
    ensures
        updates_of(tasks_script(known, tasks, n)) == batch_updates(tasks, n),
    decreases n,
{
    if n > 0 {
        let before = (n - 1) as nat;
        lemma_tasks_report(known, tasks, before);
        law_task_reports(known, carried_after_tasks(known, tasks, before), tasks[n - 1], before);
        lemma_updates_of_concat(
            tasks_script(known, tasks, before),
            task_script(known, carried_after_tasks(known, tasks, before), tasks[n - 1], before),
        );
    }
}

/// A batch reports what its tasks report, one task after the other. Which
/// names are role actions makes no difference to it.
pub proof fn law_batch_reports(known: Seq<Seq<char>>, tasks: Seq<TaskView>)
    ensures
        updates_of(craft_items_script(known, tasks)) == batch_updates(tasks, tasks.len()),
{
    let clear = aaction_script("clear"@, ""@);
    lemma_updates_of_inputs(clear);
    lemma_tasks_report(known, tasks, tasks.len());
    lemma_updates_of_concat(clear, tasks_script(known, tasks, tasks.len()));
}

} // verus!
