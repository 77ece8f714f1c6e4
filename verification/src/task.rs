//! Crafting tasks: what to craft, how often, and with which actions.

use vstd::prelude::*;

verus! {

/// One in-game action of a crafting rotation.
#[derive(Debug, PartialEq, Eq, Clone)]
pub struct Action {
    /// The name of the action as the game knows it.
    pub name: String,
    /// The wait, in seconds, that the rotation gives for the action: 2 for
    /// an action of the short class, anything else for one of the long class.
    pub wait: u64,
}

/// An `Action` as a mathematical value.
pub struct ActionView {
    pub name: Seq<char>,
    pub wait: nat,
}

impl View for Action {
    type V = ActionView;

    open spec fn view(&self) -> ActionView {
        ActionView { name: self.name@, wait: self.wait as nat }
    }
}

/// The actions of a list as mathematical values.
pub open spec fn action_views(actions: Seq<Action>) -> Seq<ActionView> {
    Seq::new(actions.len(), |i: int| actions[i]@)
}

/// The time in milliseconds to wait after an action: 1700 for the short
/// class, 2200 for the long one.
pub open spec fn cooldown_ms(wait: nat) -> nat {
    if wait == 2 {
        1700
    } else {
        2200
    }
}

impl Action {
    /// The time in milliseconds to wait after this action.
    pub fn cooldown(&self) -> (ms: u64)
        ensures
            ms == cooldown_ms(self@.wait),
    {
        if self.wait == 2 {
            1700
        } else {
            2200
        }
    }
}

/// A material of a recipe and how many of it one synthesis takes.
#[derive(Debug, PartialEq, Eq, Clone)]
pub struct Material {
    pub name: String,
    pub count: u64,
}

/// A `Material` as a mathematical value.
pub struct MaterialView {
    pub name: Seq<char>,
    pub count: nat,
}

impl View for Material {
    type V = MaterialView;

    open spec fn view(&self) -> MaterialView {
        MaterialView { name: self.name@, count: self.count as nat }
    }
}

/// The materials of a list as mathematical values.
pub open spec fn material_views(materials: Seq<Material>) -> Seq<MaterialView> {
    Seq::new(materials.len(), |i: int| materials[i]@)
}

/// The item a task produces.
#[derive(Debug, PartialEq, Eq, Clone)]
pub struct Item {
    /// The name under which the recipe is found in the crafting log.
    pub name: String,
    /// The materials in the order in which the recipe lists them.
    pub materials: Vec<Material>,
}

/// An `Item` as a mathematical value.
pub struct ItemView {
    pub name: Seq<char>,
    pub materials: Seq<MaterialView>,
}

impl View for Item {
    type V = ItemView;

    open spec fn view(&self) -> ItemView {
        ItemView {
            name: self.name@,
            materials: material_views(self.materials@),
        }
    }
}

/// One crafting job.
#[derive(Debug, PartialEq, Eq, Clone)]
pub struct Task {
    pub item: Item,
    /// The position of the recipe among the search results for the item's
    /// name, counted from 0.
    pub index: u64,
    /// How many times the item is crafted.
    pub count: u64,
    /// The rotation, in the order in which it is carried out.
    pub actions: Vec<Action>,
    /// The gearset to craft in; 0 keeps the current one.
    pub gearset: u64,
    /// Whether the item is crafted as a collectable.
    pub collectable: bool,
}

/// The tasks of a list as mathematical values.
pub open spec fn task_views(tasks: Seq<Task>) -> Seq<TaskView> {
    Seq::new(tasks.len(), |i: int| tasks[i]@)
}

/// A `Task` as a mathematical value.
pub struct TaskView {
    pub item: ItemView,
    pub index: nat,
    pub count: nat,
    pub actions: Seq<ActionView>,
    pub gearset: nat,
    pub collectable: bool,
}

impl View for Task {
    type V = TaskView;

    open spec fn view(&self) -> TaskView {
        TaskView {
            item: self.item@,
            index: self.index as nat,
            count: self.count as nat,
            actions: action_views(self.actions@),
            gearset: self.gearset as nat,
            collectable: self.collectable,
        }
    }
}

} // verus!
