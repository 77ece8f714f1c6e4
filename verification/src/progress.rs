//! What a progress display shows for a status.
//!
//! The display has two bars: one counts the repetitions of the task, the
//! other the actions of the repetition and carries a message.

use crate::status::State;
use crate::status::StateView;
use crate::status::Status;
use crate::status::StatusView;
use vstd::prelude::*;

verus! {

/// The changes that one status makes to the display.
#[derive(Debug, PartialEq, Eq)]
pub struct BarUpdate {
    /// The new position of the bar of repetitions, if it moves.
    pub craft: Option<u64>,
    /// The new position of the bar of actions, if it moves.
    pub step: Option<u64>,
    /// Whether the bar of actions is to be redrawn on every change from
    /// now on.
    pub redraw_every_step: bool,
    /// The new message of the bar of actions, if it changes.
    pub message: Option<String>,
    /// Whether this status ends the stream.
    pub done: bool,
}

/// A `BarUpdate` as a mathematical value.
pub struct BarUpdateView {
    pub craft: Option<nat>,
    pub step: Option<nat>,
    pub redraw_every_step: bool,
    pub message: Option<Seq<char>>,
    pub done: bool,
}

impl View for BarUpdate {
    type V = BarUpdateView;

    open spec fn view(&self) -> BarUpdateView {
        BarUpdateView {
            craft: match self.craft {
                Some(craft) => Some(craft as nat),
                None => None,
            },
            step: match self.step {
                Some(step) => Some(step as nat),
                None => None,
            },
            redraw_every_step: self.redraw_every_step,
            message: match self.message {
                Some(message) => Some(message@),
                None => None,
            },
            done: self.done,
        }
    }
}

/// An update that changes nothing.
pub open spec fn no_change() -> BarUpdateView {
    BarUpdateView { craft: None, step: None, redraw_every_step: false, message: None, done: false }
}

/// What the display shows for `status`. A queued task shows nothing yet.
/// While the task is set up the message says so, and the bar of
/// repetitions moves when a repetition begins. During a rotation the bar of
/// actions follows the step index and the message names the action. `Done`
/// ends the stream and changes nothing.
pub open spec fn bar_update(status: StatusView) -> BarUpdateView {
    match status.state {
        StateView::Queued => no_change(),
        StateView::Initializing => BarUpdateView { message: Some("Initializing"@), ..no_change() },
        StateView::Setup => BarUpdateView {
            craft: Some(status.craft),
            message: Some("Setting up"@),
            ..no_change()
        },
        StateView::Crafting(name) => BarUpdateView {
            step: Some(status.step),
            redraw_every_step: status.step == 0,
            message: Some(name),
            ..no_change()
        },
        StateView::Done => BarUpdateView { done: true, ..no_change() },
    }
}

/// What the display shows for `status`.
pub fn update_for(status: &Status) -> (res: BarUpdate)
    ensures
        res@ == bar_update(status@),
{
    let nothing = BarUpdate {
        craft: None,
        step: None,
        redraw_every_step: false,
        message: None,
        done: false,
    };
    match &status.state {
        State::Queued => nothing,
        State::Initializing => BarUpdate { message: Some("Initializing".to_owned()), ..nothing },
        State::Setup => BarUpdate {
            craft: Some(status.craft),
            message: Some("Setting up".to_owned()),
            ..nothing
        },
        State::Crafting(name) => BarUpdate {
            step: Some(status.step),
            redraw_every_step: status.step == 0,
            message: Some(name.clone()),
            ..nothing
        },
        State::Done => BarUpdate { done: true, ..nothing },
    }
}

} // verus!
