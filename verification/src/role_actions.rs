//! Role actions: abilities that every crafting class can use once they have
//! been put into one of a few shared slots.

use crate::craft::aaction_add;
use crate::craft::aaction_clear;
use crate::craft::aaction_script;
use crate::script::CommandView;
use crate::script::Script;
use crate::text::contains_text;
use crate::text::texts;
use vstd::prelude::*;

verus! {

/// What putting `name` into a slot takes when the slots hold `active`:
/// nothing if it is there already, the command that turns it on if not.
pub open spec fn add_action_script(active: Seq<Seq<char>>, name: Seq<char>) -> Seq<CommandView> {
    if active.contains(name) {
        Seq::empty()
    } else {
        aaction_script("on"@, name)
    }
}

/// The slots after `name` has been put into one.
pub open spec fn add_action_result(active: Seq<Seq<char>>, name: Seq<char>) -> Seq<Seq<char>> {
    if active.contains(name) {
        active
    } else {
        active.push(name)
    }
}

/// The slots after all of them have been emptied.
pub open spec fn clear_result(active: Seq<Seq<char>>) -> Seq<Seq<char>> {
    Seq::empty()
}

/// Remembers which role actions have been put into a slot, so that none is
/// put there twice. The game is never asked what the slots hold: whenever
/// they may have changed behind the cache's back, `clear` must be called.
pub struct RoleActions {
    known: Vec<String>,
    active: Vec<String>,
}

impl RoleActions {
    /// The names of all role actions.
    pub closed spec fn known(&self) -> Seq<Seq<char>> {
        texts(self.known@)
    }

    /// The names of the role actions that are in a slot, in the order in
    /// which they were put there.
    pub closed spec fn active(&self) -> Seq<Seq<char>> {
        texts(self.active@)
    }

    /// A cache for the role actions named in `known`, with all slots taken
    /// to be empty.
    pub fn new(known: Vec<String>) -> (res: RoleActions)
        ensures
            res.known() == texts(known@),
            res.active() == Seq::<Seq<char>>::empty(),
    {
        RoleActions { known, active: Vec::new() }
    }

    /// Whether `name` is a role action.
    pub fn is_role_action(&self, name: &str) -> (res: bool)
        ensures
            res == self.known().contains(name@),
    {
        contains_text(&self.known, name)
    }

    /// Whether `name` is in a slot.
    pub fn is_active(&self, name: &str) -> (res: bool)
        ensures
            res == self.active().contains(name@),
    {
        contains_text(&self.active, name)
    }

    /// Puts `name` into a slot unless it is in one already.
    pub fn add_action(&mut self, script: &mut Script, name: &str)
        ensures
            final(self).known() == old(self).known(),
            final(self).active() == add_action_result(old(self).active(), name@),
            final(script)@ == old(script)@ + add_action_script(old(self).active(), name@),
    {
        if !self.is_active(name) {
            aaction_add(script, name);
            self.active.push(name.to_owned());
        }
    }

    /// Empties all slots.
    pub fn clear(&mut self, script: &mut Script)
        ensures
            final(self).known() == old(self).known(),
            final(self).active() == clear_result(old(self).active()),
            final(script)@ == old(script)@ + aaction_script("clear"@, ""@),
    {
        aaction_clear(script);
        self.active.clear();
    }
}

} // verus!
