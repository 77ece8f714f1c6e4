//! The crafting sequencer: what is sent to the game, and in which order, to
//! carry out a batch of tasks.

use crate::decimal::decimal;
use crate::decimal::digit;
use crate::decimal::digit_char;
use crate::input::Key;
use crate::role_actions::add_action_result;
use crate::role_actions::add_action_script;
use crate::role_actions::RoleActions;
use crate::script::key_press;
use crate::script::key_presses;
use crate::script::lemma_typed_concat;
use crate::script::lemma_typed_push;
use crate::script::pause;
use crate::script::reported;
use crate::script::typed;
use crate::script::CommandView;
use crate::script::Script;
use crate::status::State;
use crate::status::StateView;
use crate::status::Update;
use crate::status::UpdateView;
use crate::task::action_views;
use crate::task::cooldown_ms;
use crate::task::material_views;
use crate::task::task_views;
use crate::task::Action;
use crate::task::ActionView;
use crate::task::MaterialView;
use crate::task::Task;
use crate::task::TaskView;
use crate::text::same_text;
use vstd::prelude::*;

verus! {

/// Types `s` into the focused text box.
pub fn send_string(script: &mut Script, s: &str)
    ensures
        final(script)@ == old(script)@ + typed(s@),
{
    for c in it: s.chars()
        invariant
            it.seq() == s@,
            script@ == old(script)@ + typed(s@.take(it.index())),
    {
        script.send_char(c);
    }
}

/// Types `n` in decimal.
pub fn send_number(script: &mut Script, n: u64)
    ensures
        final(script)@ == old(script)@ + typed(decimal(n as nat)),
    decreases n,
{
    if n >= 10 {
        send_number(script, n / 10);
    }
    script.send_char(digit_char((n % 10) as u8));
    proof {
        if n >= 10 {
            lemma_typed_push(decimal(n as nat / 10), digit(n as nat % 10));
        }
    }
}

/// The chat command that uses the action `name`.
pub open spec fn action_command(name: Seq<char>) -> Seq<char> {
    "/ac \""@ + name + "\""@
}

/// Opens the chat line, types the command for the action, gives the game a
/// moment and submits.
pub open spec fn send_action_script(name: Seq<char>) -> Seq<CommandView> {
    seq![key_press(Key::Enter)] + typed(action_command(name)) + seq![
        pause(50),
        key_press(Key::Enter),
    ]
}

/// Uses the action `action` through the chat line.
pub fn send_action(script: &mut Script, action: &str)
    ensures
        final(script)@ == old(script)@ + send_action_script(action@),
{
    script.press(Key::Enter);
    send_string(script, "/ac \"");
    send_string(script, action);
    send_string(script, "\"");
    script.wait_ms(50);
    script.press(Key::Enter);
    proof {
        lemma_typed_concat("/ac \""@, action@);
        lemma_typed_concat("/ac \""@ + action@, "\""@);
    }
}

/// The chat command that switches to the gearset `gearset`.
pub open spec fn gearset_command(gearset: nat) -> Seq<char> {
    "/gearset change "@ + decimal(gearset)
}

/// Opens the chat line, types the gearset command, gives the game a moment
/// and submits.
pub open spec fn change_gearset_script(gearset: nat) -> Seq<CommandView> {
    seq![key_press(Key::Enter)] + typed(gearset_command(gearset)) + seq![
        pause(50),
        key_press(Key::Enter),
    ]
}

/// Switches to the gearset `gearset`.
pub fn change_gearset(script: &mut Script, gearset: u64)
    ensures
        final(script)@ == old(script)@ + change_gearset_script(gearset as nat),
{
    script.press(Key::Enter);
    send_string(script, "/gearset change ");
    send_number(script, gearset);
    script.wait_ms(50);
    script.press(Key::Enter);
    proof {
        lemma_typed_concat("/gearset change "@, decimal(gearset as nat));
    }
}

/// The name of the action that turns collectable synthesis on and off.
pub open spec fn collectable_action() -> Seq<char> {
    "collectable synthesis"@
}

/// Turns collectable synthesis on if it is off, and off if it is on.
pub fn toggle_collectable(script: &mut Script)
    ensures
        final(script)@ == old(script)@ + send_action_script(collectable_action()),
{
    send_action(script, "collectable synthesis")
}

/// The chat command that changes the role action slots: with the verb
/// `clear` it empties all of them, with any other verb (`on`, `off`) it
/// applies the verb to the slot of `action`.
pub open spec fn aaction_command(verb: Seq<char>, action: Seq<char>) -> Seq<char> {
    if verb == "clear"@ {
        "/aaction clear"@
    } else {
        "/aaction \""@ + action + "\" "@ + verb
    }
}

/// Opens the chat line, types the role action command and submits.
pub open spec fn aaction_script(verb: Seq<char>, action: Seq<char>) -> Seq<CommandView> {
    seq![key_press(Key::Enter)] + typed(aaction_command(verb, action)) + seq![
        key_press(Key::Enter),
    ]
}

/// Changes the role action slots.
pub fn aaction(script: &mut Script, verb: &str, action: &str)
    ensures
        final(script)@ == old(script)@ + aaction_script(verb@, action@),
{
    script.press(Key::Enter);
    if same_text(verb, "clear") {
        send_string(script, "/aaction clear");
    } else {
        send_string(script, "/aaction \"");
        send_string(script, action);
        send_string(script, "\" ");
        send_string(script, verb);
        proof {
            lemma_typed_concat("/aaction \""@, action@);
            lemma_typed_concat("/aaction \""@ + action@, "\" "@);
            lemma_typed_concat("/aaction \""@ + action@ + "\" "@, verb@);
        }
    }
    script.press(Key::Enter);
}

/// Empties all role action slots.
pub fn aaction_clear(script: &mut Script)
    ensures
        final(script)@ == old(script)@ + aaction_script("clear"@, ""@),
{
    aaction(script, "clear", "")
}

/// Puts `action` into a role action slot.
pub fn aaction_add(script: &mut Script, action: &str)
    ensures
        final(script)@ == old(script)@ + aaction_script("on"@, action@),
{
    aaction(script, "on", action)
}

/// Takes `action` out of its role action slot.
pub fn aaction_remove(script: &mut Script, action: &str)
    ensures
        final(script)@ == old(script)@ + aaction_script("off"@, action@),
{
    aaction(script, "off", action)
}

/// Two escapes close up to two windows, two cancels close the system menu
/// if the escapes opened it, and after a second two enters leave the chat
/// line closed.
pub open spec fn clear_windows_script() -> Seq<CommandView> {
    seq![
        key_press(Key::Escape),
        key_press(Key::Escape),
        key_press(Key::Cancel),
        key_press(Key::Cancel),
        pause(1000),
        key_press(Key::Enter),
        key_press(Key::Enter),
    ]
}

/// Closes whatever menus are open, so that what follows starts from a known
/// place.
pub fn clear_windows(script: &mut Script)
    ensures
        final(script)@ == old(script)@ + clear_windows_script(),
{
    script.press(Key::Escape);
    script.press(Key::Escape);
    script.press(Key::Cancel);
    script.press(Key::Cancel);
    script.wait_secs(1);
    script.press(Key::Enter);
    script.press(Key::Enter);
}

/// Nine steps backward reach the search box from anywhere in the crafting
/// log; the name is typed into it and submitted; once the results are there
/// the cursor goes down to the recipe, which is then opened.
pub open spec fn select_recipe_script(task: TaskView) -> Seq<CommandView> {
    key_presses(Key::Backward, 9) + seq![key_press(Key::Confirm)] + typed(task.item.name) + seq![
        pause(200),
        key_press(Key::Enter),
        pause(1000),
    ] + key_presses(Key::Down, task.index) + seq![key_press(Key::Confirm)]
}

/// Finds the recipe of `task` in the crafting log and opens it. The cursor
/// is then on the synthesize button.
pub fn select_recipe(script: &mut Script, task: &Task)
    ensures
        final(script)@ == old(script)@ + select_recipe_script(task@),
{
    script.press_times(Key::Backward, 9);
    script.press(Key::Confirm);
    send_string(script, task.item.name.as_str());
    script.wait_ms(200);
    script.press(Key::Enter);
    script.wait_secs(1);
    script.press_times(Key::Down, task.index);
    script.press(Key::Confirm);
}

/// The first pass over the first `n` materials: it starts on the quantity
/// of material `n - 1` and works its way up to material 0. Each quantity is
/// confirmed once per unit, and the cursor moves up after every material but
/// the topmost.
pub open spec fn reverse_pass(materials: Seq<MaterialView>, n: nat) -> Seq<CommandView>
    decreases n,
{
    if n == 0 {
        Seq::empty()
    } else {
        key_presses(Key::Confirm, materials[n - 1].count) + (if n == 1 {
            Seq::empty()
        } else {
            seq![key_press(Key::Up)]
        }) + reverse_pass(materials, (n - 1) as nat)
    }
}

/// The second pass over the first `n` materials: it starts on material 0 and
/// works its way down. Each quantity is confirmed once per unit, and the
/// cursor moves down after every material.
pub open spec fn forward_pass(materials: Seq<MaterialView>, n: nat) -> Seq<CommandView>
    decreases n,
{
    if n == 0 {
        Seq::empty()
    } else {
        forward_pass(materials, (n - 1) as nat) + key_presses(
            Key::Confirm,
            materials[n - 1].count,
        ) + seq![key_press(Key::Down)]
    }
}

/// From the synthesize button the cursor goes up and twice to the right, to
/// the quantity of the last material. The first pass runs up the list, one
/// step to the left changes the column, and the second pass runs down the
/// list again.
pub open spec fn select_materials_script(materials: Seq<MaterialView>) -> Seq<CommandView> {
    seq![key_press(Key::Up), key_press(Key::Right), key_press(Key::Right)] + reverse_pass(
        materials,
        materials.len(),
    ) + seq![key_press(Key::Left)] + forward_pass(materials, materials.len())
}

/// Sets the quantity of every material of `task`. The cursor starts on the
/// synthesize button and ends there.
pub fn select_materials(script: &mut Script, task: &Task)
    ensures
        final(script)@ == old(script)@ + select_materials_script(task@.item.materials),
{
    let materials = &task.item.materials;
    let ghost views = task@.item.materials;
    script.press(Key::Up);
    script.press(Key::Right);
    script.press(Key::Right);
    let ghost top = script@;
    let mut i: usize = materials.len();
    while i > 0
        invariant
            i <= materials.len(),
            views == material_views(materials@),
            script@ + reverse_pass(views, i as nat) == top + reverse_pass(views, views.len()),
        decreases i,
    {
        i = i - 1;
        script.press_times(Key::Confirm, materials[i].count);
        if i != 0 {
            script.press(Key::Up);
        }
    }
    script.press(Key::Left);
    let ghost turn = script@;
    for i in 0..materials.len()
        invariant
            views == material_views(materials@),
            script@ == turn + forward_pass(views, i as nat),
    {
        script.press_times(Key::Confirm, materials[i].count);
        script.press(Key::Down);
    }
}

/// What one action of a rotation takes: the status names the action and
/// then its position, the action is used, and its cooldown is waited out.
pub open spec fn action_script(action: ActionView, position: nat) -> Seq<CommandView> {
    seq![
        reported(UpdateView::State(StateView::Crafting(action.name))),
        reported(UpdateView::Step(position)),
    ] + send_action_script(action.name) + seq![pause(cooldown_ms(action.wait))]
}

/// The first `n` actions of a rotation, in order.
pub open spec fn actions_script(actions: Seq<ActionView>, n: nat) -> Seq<CommandView>
    decreases n,
{
    if n == 0 {
        Seq::empty()
    } else {
        actions_script(actions, (n - 1) as nat) + action_script(actions[n - 1], (n - 1) as nat)
    }
}

/// The name the status carries once the last action has been used.
pub open spec fn finishing() -> Seq<char> {
    "Finishing"@
}

/// The whole rotation, followed by the two reports that end it: the step
/// index goes one past the last action, and the state names `finishing()`.
pub open spec fn execute_actions_script(actions: Seq<ActionView>) -> Seq<CommandView> {
    actions_script(actions, actions.len()) + seq![
        reported(UpdateView::Step(actions.len())),
        reported(UpdateView::State(StateView::Crafting(finishing()))),
    ]
}

/// Carries out the rotation `actions`.
pub fn execute_actions(script: &mut Script, actions: &[Action])
    ensures
        final(script)@ == old(script)@ + execute_actions_script(action_views(actions@)),
{
    let ghost views = action_views(actions@);
    for i in 0..actions.len()
        invariant
            views == action_views(actions@),
            script@ == old(script)@ + actions_script(views, i as nat),
    {
        let action = &actions[i];
        script.report(Update::State(State::Crafting(action.name.clone())));
        script.report(Update::Step(i as u64));
        send_action(script, action.name.as_str());
        script.wait_ms(action.cooldown());
    }
    script.report(Update::Step(actions.len() as u64));
    script.report(Update::State(State::Crafting("Finishing".to_owned())));
}

/// What ends a repetition and brings the cursor back to the synthesize
/// button: a collectable asks for one confirmation more.
pub open spec fn finish_craft_script(collectable: bool) -> Seq<CommandView> {
    if collectable {
        seq![pause(1000), key_press(Key::Confirm), pause(3000), key_press(Key::Confirm)]
    } else {
        seq![pause(4000), key_press(Key::Confirm)]
    }
}

/// Repetition number `craft` of `task`, counted from 1.
pub open spec fn craft_script(task: TaskView, craft: nat) -> Seq<CommandView> {
    seq![reported(UpdateView::Craft(craft)), reported(UpdateView::State(StateView::Setup))]
        + select_materials_script(task.item.materials) + seq![
        key_press(Key::Confirm),
        pause(2000),
    ] + execute_actions_script(task.actions) + finish_craft_script(task.collectable)
}

/// The first `n` repetitions of `task`, in order.
pub open spec fn crafts_script(task: TaskView, n: nat) -> Seq<CommandView>
    decreases n,
{
    if n == 0 {
        Seq::empty()
    } else {
        crafts_script(task, (n - 1) as nat) + craft_script(task, n)
    }
}

/// All repetitions of `task`.
pub open spec fn execute_task_script(task: TaskView) -> Seq<CommandView> {
    crafts_script(task, task.count)
}

/// Crafts the item of `task` as often as the task asks. The recipe is open
/// and the cursor is on the synthesize button, before and after.
pub fn execute_task(script: &mut Script, task: &Task)
    ensures
        final(script)@ == old(script)@ + execute_task_script(task@),
{
    let mut craft: u64 = 0;
    while craft < task.count
        invariant
            craft <= task.count,
            script@ == old(script)@ + crafts_script(task@, craft as nat),
        decreases task.count - craft,
    {
        craft = craft + 1;
        script.report(Update::Craft(craft));
        script.report(Update::State(State::Setup));
        select_materials(script, task);
        script.press(Key::Confirm);
        script.wait_secs(2);
        execute_actions(script, task.actions.as_slice());
        if task.collectable {
            script.wait_secs(1);
            script.press(Key::Confirm);
            script.wait_secs(3);
            script.press(Key::Confirm);
        } else {
            script.wait_secs(4);
            script.press(Key::Confirm);
        }
    }
}

/// The slots after the first `n` actions of a rotation have been looked at,
/// starting from the slots `active`: every action that is a role action and
/// is not in a slot yet is put into one.
pub open spec fn configured_actions(
    known: Seq<Seq<char>>,
    active: Seq<Seq<char>>,
    actions: Seq<ActionView>,
    n: nat,
) -> Seq<Seq<char>>
    decreases n,
{
    if n == 0 {
        active
    } else {
        let before = configured_actions(known, active, actions, (n - 1) as nat);
        if known.contains(actions[n - 1].name) {
            add_action_result(before, actions[n - 1].name)
        } else {
            before
        }
    }
}

/// What looking at the first `n` actions of a rotation takes: an action
/// that is no role action takes nothing; a role action is put into a slot
/// unless it is in one already, and is given a quarter of a second either
/// way.
pub open spec fn configure_script(
    known: Seq<Seq<char>>,
    active: Seq<Seq<char>>,
    actions: Seq<ActionView>,
    n: nat,
) -> Seq<CommandView>
    decreases n,
{
    if n == 0 {
        Seq::empty()
    } else {
        let before = configured_actions(known, active, actions, (n - 1) as nat);
        configure_script(known, active, actions, (n - 1) as nat) + (if known.contains(
            actions[n - 1].name,
        ) {
            add_action_script(before, actions[n - 1].name) + seq![pause(250)]
        } else {
            Seq::empty()
        })
    }
}

/// Puts the role actions that the rotation of `task` uses into slots.
pub fn configure_role_actions(script: &mut Script, role_actions: &mut RoleActions, task: &Task)
    ensures
        final(role_actions).known() == old(role_actions).known(),
        final(role_actions).active() == configured_actions(
            old(role_actions).known(),
            old(role_actions).active(),
            task@.actions,
            task@.actions.len(),
        ),
        final(script)@ == old(script)@ + configure_script(
            old(role_actions).known(),
            old(role_actions).active(),
            task@.actions,
            task@.actions.len(),
        ),
{
    let ghost known = role_actions.known();
    let ghost active = role_actions.active();
    let ghost actions = task@.actions;
    for i in 0..task.actions.len()
        invariant
            actions == action_views(task.actions@),
            role_actions.known() == known,
            role_actions.active() == configured_actions(known, active, actions, i as nat),
            script@ == old(script)@ + configure_script(known, active, actions, i as nat),
    {
        let action = &task.actions[i];
        if role_actions.is_role_action(action.name.as_str()) {
            role_actions.add_action(script, action.name.as_str());
            script.wait_ms(250);
        }
    }
}

/// Whether a task that asks for the gearset `wanted` makes the game switch
/// when the gearset `current` is on. A task that asks for gearset 0 asks for
/// no gearset in particular.
pub open spec fn switches_gearset(current: nat, wanted: nat) -> bool {
    wanted > 0 && wanted != current
}

/// The gearset that is on once a task that asks for `wanted` has begun.
pub open spec fn gearset_after(current: nat, wanted: nat) -> nat {
    if switches_gearset(current, wanted) {
        wanted
    } else {
        current
    }
}

/// The slots once a task that asks for `wanted` has begun: a switch of
/// gearsets empties them.
pub open spec fn active_after_gearset(current: nat, wanted: nat, active: Seq<Seq<char>>) -> Seq<
    Seq<char>,
> {
    if switches_gearset(current, wanted) {
        Seq::empty()
    } else {
        active
    }
}

/// What a switch of gearsets takes: the slots are emptied, the game is given
/// a fifth of a second, and the gearset is changed. Where no switch is
/// called for, nothing is sent.
pub open spec fn gearset_script(current: nat, wanted: nat) -> Seq<CommandView> {
    if switches_gearset(current, wanted) {
        aaction_script("clear"@, ""@) + seq![pause(200)] + change_gearset_script(wanted)
    } else {
        Seq::empty()
    }
}

/// Switches to the gearset `wanted` if that is called for, and returns the
/// gearset that is on afterwards.
pub fn apply_gearset(
    script: &mut Script,
    role_actions: &mut RoleActions,
    current: u64,
    wanted: u64,
) -> (res: u64)
    ensures
        res == gearset_after(current as nat, wanted as nat),
        final(role_actions).known() == old(role_actions).known(),
        final(role_actions).active() == active_after_gearset(
            current as nat,
            wanted as nat,
            old(role_actions).active(),
        ),
        final(script)@ == old(script)@ + gearset_script(current as nat, wanted as nat),
{
    if wanted > 0 && wanted != current {
        role_actions.clear(script);
        script.wait_ms(200);
        change_gearset(script, wanted);
        wanted
    } else {
        current
    }
}

/// What a run carries from one task to the next.
pub struct Carried {
    /// The gearset that is on; 0 before any was switched to.
    pub gearset: nat,
    /// The role actions that are in a slot.
    pub active: Seq<Seq<char>>,
}

/// What the run carries once the task `task` has been carried out.
pub open spec fn carried_after(known: Seq<Seq<char>>, before: Carried, task: TaskView) -> Carried {
    Carried {
        gearset: gearset_after(before.gearset, task.gearset),
        active: configured_actions(
            known,
            active_after_gearset(before.gearset, task.gearset, before.active),
            task.actions,
            task.actions.len(),
        ),
    }
}

/// Everything up to the first repetition of `task`, which is task number
/// `index` of its batch: the status names the task and says that it is
/// being set up, the gearset is seen to, open menus are closed, collectable
/// synthesis is turned on if the task asks for it, the role actions are put
/// into slots, the crafting log is opened and given a second, and the
/// recipe is selected.
pub open spec fn begin_task_script(
    known: Seq<Seq<char>>,
    before: Carried,
    task: TaskView,
    index: nat,
) -> Seq<CommandView> {
    seq![
        reported(UpdateView::Task(index)),
        reported(UpdateView::State(StateView::Initializing)),
    ] + gearset_script(before.gearset, task.gearset) + clear_windows_script()
        + (if task.collectable {
        send_action_script(collectable_action())
    } else {
        Seq::empty()
    }) + configure_script(
        known,
        active_after_gearset(before.gearset, task.gearset, before.active),
        task.actions,
        task.actions.len(),
    ) + seq![key_press(Key::CraftingLog), pause(1000)] + select_recipe_script(task)
}

/// Everything after the last repetition of `task`: open menus are closed,
/// the character is given two seconds to stand up, collectable synthesis is
/// turned off again if the task turned it on, and the status says that the
/// task is done.
pub open spec fn end_task_script(task: TaskView) -> Seq<CommandView> {
    clear_windows_script() + seq![pause(2000)] + (if task.collectable {
        send_action_script(collectable_action())
    } else {
        Seq::empty()
    }) + seq![reported(UpdateView::State(StateView::Done))]
}

/// Sets the game up for the repetitions of `task`, which is task number
/// `index` of its batch, and returns the gearset that is on afterwards.
fn begin_task(
    script: &mut Script,
    role_actions: &mut RoleActions,
    task: &Task,
    index: u64,
    gearset: u64,
) -> (res: u64)
    ensures
        final(role_actions).known() == old(role_actions).known(),
        (Carried { gearset: res as nat, active: final(role_actions).active() }) == carried_after(
            old(role_actions).known(),
            Carried { gearset: gearset as nat, active: old(role_actions).active() },
            task@,
        ),
        final(script)@ == old(script)@ + begin_task_script(
            old(role_actions).known(),
            Carried { gearset: gearset as nat, active: old(role_actions).active() },
            task@,
            index as nat,
        ),
{
    script.report(Update::Task(index));
    script.report(Update::State(State::Initializing));
    let gearset = apply_gearset(script, role_actions, gearset, task.gearset);
    clear_windows(script);
    if task.collectable {
        toggle_collectable(script);
    }
    configure_role_actions(script, role_actions, task);
    script.press(Key::CraftingLog);
    script.wait_secs(1);
    select_recipe(script, task);
    gearset
}

/// Leaves the crafting log once the repetitions of `task` are over.
fn end_task(script: &mut Script, task: &Task)
    ensures
        final(script)@ == old(script)@ + end_task_script(task@),
{
    clear_windows(script);
    script.wait_secs(2);
    if task.collectable {
        toggle_collectable(script);
    }
    script.report(Update::State(State::Done));
}

/// The task `task`, which is task number `index` of its batch, from
/// beginning to end.
pub open spec fn task_script(
    known: Seq<Seq<char>>,
    before: Carried,
    task: TaskView,
    index: nat,
) -> Seq<CommandView> {
    begin_task_script(known, before, task, index) + execute_task_script(task) + end_task_script(
        task,
    )
}

/// What the run carries once the first `n` tasks of a batch have been
/// carried out. A batch starts with no gearset switched to and with all
/// slots empty.
pub open spec fn carried_after_tasks(known: Seq<Seq<char>>, tasks: Seq<TaskView>, n: nat) -> Carried
    decreases n,
{
    if n == 0 {
        Carried { gearset: 0, active: Seq::empty() }
    } else {
        carried_after(known, carried_after_tasks(known, tasks, (n - 1) as nat), tasks[n - 1])
    }
}

/// The first `n` tasks of a batch, in order.
pub open spec fn tasks_script(known: Seq<Seq<char>>, tasks: Seq<TaskView>, n: nat) -> Seq<
    CommandView,
>
    decreases n,
{
    if n == 0 {
        Seq::empty()
    } else {
        tasks_script(known, tasks, (n - 1) as nat) + task_script(
            known,
            carried_after_tasks(known, tasks, (n - 1) as nat),
            tasks[n - 1],
            (n - 1) as nat,
        )
    }
}

/// A whole batch: the slots are emptied, so that the cache and the game
/// agree, and the tasks follow one after the other.
pub open spec fn craft_items_script(known: Seq<Seq<char>>, tasks: Seq<TaskView>) -> Seq<
    CommandView,
> {
    aaction_script("clear"@, ""@) + tasks_script(known, tasks, tasks.len())
}

/// Carries out the batch `tasks`, one task after the other.
pub fn craft_items(script: &mut Script, role_actions: &mut RoleActions, tasks: &Vec<Task>)
    ensures
        final(role_actions).known() == old(role_actions).known(),
        final(role_actions).active() == carried_after_tasks(
            old(role_actions).known(),
            task_views(tasks@),
            tasks@.len(),
        ).active,
        final(script)@ == old(script)@ + craft_items_script(
            old(role_actions).known(),
            task_views(tasks@),
        ),
{
    let ghost known = role_actions.known();
    let ghost views = task_views(tasks@);
    role_actions.clear(script);
    let mut gearset: u64 = 0;
    for task_index in 0..tasks.len()
        invariant
            views == task_views(tasks@),
            role_actions.known() == known,
            carried_after_tasks(known, views, task_index as nat) == (Carried {
                gearset: gearset as nat,
                active: role_actions.active(),
            }),
            script@ == old(script)@ + aaction_script("clear"@, ""@) + tasks_script(
                known,
                views,
                task_index as nat,
            ),
    {
        let task = &tasks[task_index];
        gearset = begin_task(script, role_actions, task, task_index as u64, gearset);
        execute_task(script, task);
        end_task(script, task);
    }
}

} // verus!
