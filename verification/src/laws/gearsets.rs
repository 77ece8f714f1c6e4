//! When the gearset is switched.

use crate::craft::aaction_script;
use crate::craft::carried_after_tasks;
use crate::craft::change_gearset_script;
use crate::craft::gearset_after;
use crate::craft::gearset_script;
use crate::craft::task_script;
use crate::script::pause;
use crate::script::CommandView;
use crate::task::TaskView;
use vstd::prelude::*;

verus! {

/// The gearset is switched if and only if the task asks for a gearset and
/// asks for another one than is on. A switch empties the role action slots
/// first and ends with the gearset command; the gearset asked for is on
/// afterwards. Without a switch nothing is sent and the gearset stays.
pub proof fn law_gearset_switch(current: nat, wanted: nat)
    ensures
        gearset_script(current, wanted).len() > 0 <==> wanted > 0 && wanted != current,
        wanted > 0 && wanted != current ==> gearset_script(current, wanted) == aaction_script(
            "clear"@,
            ""@,
        ) + seq![pause(200)] + change_gearset_script(wanted) && gearset_after(current, wanted)
            == wanted,
        !(wanted > 0 && wanted != current) ==> gearset_script(current, wanted) == Seq::<
            CommandView,
        >::empty() && gearset_after(current, wanted) == current,
        wanted == 0 ==> gearset_script(current, wanted) == Seq::<CommandView>::empty(),
{
}

/// The gearset that the last of the first `n` tasks with a gearset of its
/// own asks for; 0 if none of them asks for one.
pub open spec fn last_gearset(tasks: Seq<TaskView>, n: nat) -> nat
    decreases n,
{
    if n == 0 {
        0
    } else if tasks[n - 1].gearset > 0 {
        tasks[n - 1].gearset
    } else {
        last_gearset(tasks, (n - 1) as nat)
    }
}

/// The gearset that a run carries from task to task is the one that was
/// asked for last.
pub proof fn law_carried_gearset(known: Seq<Seq<char>>, tasks: Seq<TaskView>, n: nat)
    ensures
        carried_after_tasks(known, tasks, n).gearset == last_gearset(tasks, n),
    decreases n,
{
    if n > 0 {
        law_carried_gearset(known, tasks, (n - 1) as nat);
    }
}

/// Task number `n` of a batch reports its number and that it is being
/// initialized, and sees to the gearset next: it switches if and only if it
/// asks for a gearset and the gearset that was asked for last is another
/// one.
pub proof fn law_task_switches_gearset(known: Seq<Seq<char>>, tasks: Seq<TaskView>, n: nat)
    requires
        n < tasks.len(),
    ensures
        ({
            let task = tasks[n as int];
            let script = task_script(known, carried_after_tasks(known, tasks, n), task, n);
            let switch = gearset_script(last_gearset(tasks, n), task.gearset);
            &&& script.len() >= 2 + switch.len()
            &&& script.subrange(2, 2 + switch.len() as int) == switch
            &&& switch.len() > 0 <==> task.gearset > 0 && task.gearset != last_gearset(tasks, n)
        }),
{
    law_carried_gearset(known, tasks, n);
    law_gearset_switch(last_gearset(tasks, n), tasks[n as int].gearset);
}

} // verus!
