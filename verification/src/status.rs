//! Progress snapshots and the channel that publishes them.

use crate::error::Error;
use std::sync::mpsc::RecvError;
use std::sync::mpsc::SendError;
use std::sync::mpsc::Sender;
use vstd::prelude::*;

verus! {

/// The phase a crafting run is in.
#[derive(Debug, PartialEq)]
pub enum State {
    Queued,
    Initializing,
    Setup,
    /// An action is being carried out; the field holds its name.
    Crafting(String),
    Done,
}

/// A `State` as a mathematical value.
pub enum StateView {
    Queued,
    Initializing,
    Setup,
    Crafting(Seq<char>),
    Done,
}

impl View for State {
    type V = StateView;

    open spec fn view(&self) -> StateView {
        match self {
            State::Queued => StateView::Queued,
            State::Initializing => StateView::Initializing,
            State::Setup => StateView::Setup,
            State::Crafting(name) => StateView::Crafting(name@),
            State::Done => StateView::Done,
        }
    }
}

impl Clone for State {
    fn clone(&self) -> (res: State)
        ensures
            res == *self,
    {
        match self {
            State::Queued => State::Queued,
            State::Initializing => State::Initializing,
            State::Setup => State::Setup,
            State::Crafting(name) => State::Crafting(name.clone()),
            State::Done => State::Done,
        }
    }
}

/// A snapshot of the progress of a run: the phase, and the indices of the
/// task in the batch, of the repetition in the task and of the action in the
/// repetition.
#[derive(Debug, PartialEq)]
pub struct Status {
    pub state: State,
    pub task: u64,
    pub craft: u64,
    pub step: u64,
}

/// A `Status` as a mathematical value.
pub struct StatusView {
    pub state: StateView,
    pub task: nat,
    pub craft: nat,
    pub step: nat,
}

impl View for Status {
    type V = StatusView;

    open spec fn view(&self) -> StatusView {
        StatusView {
            state: self.state@,
            task: self.task as nat,
            craft: self.craft as nat,
            step: self.step as nat,
        }
    }
}

impl Clone for Status {
    fn clone(&self) -> (res: Status)
        ensures
            res == *self,
    {
        Status { state: self.state.clone(), task: self.task, craft: self.craft, step: self.step }
    }
}

/// The status every run starts from.
pub open spec fn initial_status() -> StatusView {
    StatusView { state: StateView::Queued, task: 0, craft: 0, step: 0 }
}

/// One change to the status.
#[derive(Debug, PartialEq)]
pub enum Update {
    State(State),
    Task(u64),
    Craft(u64),
    Step(u64),
}

/// An `Update` as a mathematical value.
pub enum UpdateView {
    State(StateView),
    Task(nat),
    Craft(nat),
    Step(nat),
}

impl View for Update {
    type V = UpdateView;

    open spec fn view(&self) -> UpdateView {
        match self {
            Update::State(state) => UpdateView::State(state@),
            Update::Task(task) => UpdateView::Task(*task as nat),
            Update::Craft(craft) => UpdateView::Craft(*craft as nat),
            Update::Step(step) => UpdateView::Step(*step as nat),
        }
    }
}

impl Clone for Update {
    fn clone(&self) -> (res: Update)
        ensures
            res == *self,
    {
        match self {
            Update::State(state) => Update::State(state.clone()),
            Update::Task(task) => Update::Task(*task),
            Update::Craft(craft) => Update::Craft(*craft),
            Update::Step(step) => Update::Step(*step),
        }
    }
}

/// The status after one update. A new task index resets the repetition and
/// the action index; a new repetition index resets the action index.
pub open spec fn apply(status: StatusView, update: UpdateView) -> StatusView {
    match update {
        UpdateView::State(state) => StatusView { state, ..status },
        UpdateView::Task(task) => StatusView { task, craft: 0, step: 0, ..status },
        UpdateView::Craft(craft) => StatusView { craft, step: 0, ..status },
        UpdateView::Step(step) => StatusView { step, ..status },
    }
}

/// The status after a series of updates.
pub open spec fn apply_all(status: StatusView, updates: Seq<UpdateView>) -> StatusView
    decreases updates.len(),
{
    if updates.len() == 0 {
        status
    } else {
        apply(apply_all(status, updates.drop_last()), updates.last())
    }
}

/// What a consumer sees when the updates are published one by one: the
/// status after each of them, in order.
pub open spec fn observations(status: StatusView, updates: Seq<UpdateView>) -> Seq<StatusView> {
    Seq::new(updates.len(), |i: int| apply_all(status, updates.take(i + 1)))
}

/// `Sender` of `std::sync::mpsc`, the sending half of a channel. Nothing is
/// known of what is inside.
#[verifier::external_type_specification]
#[verifier::external_body]
#[verifier::reject_recursive_types(T)]
pub struct ExSender<T>(Sender<T>);

/// `SendError` of `std::sync::mpsc`, the error of a send on a channel whose
/// receiver is gone. Nothing is known of what is inside.
#[verifier::external_type_specification]
#[verifier::external_body]
#[verifier::reject_recursive_types(T)]
pub struct ExSendError<T>(SendError<T>);

/// `RecvError` of `std::sync::mpsc`, the error of a receive on a channel
/// whose sender is gone. Nothing is known of what is inside.
#[verifier::external_type_specification]
#[verifier::external_body]
pub struct ExRecvError(RecvError);

/// `Sender::send` of `std::sync::mpsc` hands a value to the channel and does
/// not block. Whether the value is accepted depends on whether the receiver
/// still exists, so nothing is claimed of the result.
pub assume_specification<T>[ Sender::<T>::send ](chan: &Sender<T>, value: T) -> (res: Result<
    (),
    SendError<T>,
>)
;

/// What a receive on the status channel comes to: the channel hands out
/// every snapshot that it has accepted, and fails only when nobody is left
/// to send one.
pub fn reception(received: Result<Status, RecvError>) -> (res: Result<Status, Error>)
    ensures
        match received {
            Ok(status) => res == Ok::<Status, Error>(status),
            Err(_) => res == Err::<Status, Error>(Error::ChannelClosed),
        },
{
    match received {
        Ok(status) => Ok(status),
        Err(_) => Err(Error::ChannelClosed),
    }
}

/// Holds the current status and publishes a copy of it after every change.
pub struct StatusSender {
    chan: Sender<Status>,
    status: Status,
    published: Ghost<Seq<StatusView>>,
}

impl StatusSender {
    /// The current status.
    pub closed spec fn status(&self) -> StatusView {
        self.status@
    }

    /// Every snapshot the channel has accepted so far, oldest first.
    pub closed spec fn published(&self) -> Seq<StatusView> {
        self.published@
    }

    /// How one change shows on the sender: the status is updated whether or
    /// not the channel is still open, and the new status is published exactly
    /// when the channel accepts it. A refusal is reported as `ChannelClosed`.
    pub open spec fn changed(
        before: StatusSender,
        update: UpdateView,
        after: StatusSender,
        res: Result<(), Error>,
    ) -> bool {
        &&& after.status() == apply(before.status(), update)
        &&& res is Ok ==> after.published() == before.published().push(after.status())
        &&& res is Err ==> after.published() == before.published()
        &&& res is Err ==> res == Err::<(), Error>(Error::ChannelClosed)
    }

    /// A sender for `chan` that starts from the initial status and has
    /// published nothing yet.
    pub fn new(chan: Sender<Status>) -> (res: StatusSender)
        ensures
            res.status() == initial_status(),
            res.published() == Seq::<StatusView>::empty(),
    {
        StatusSender {
            chan,
            status: Status { state: State::Queued, task: 0, craft: 0, step: 0 },
            published: Ghost(Seq::empty()),
        }
    }

    /// The current status.
    pub fn current(&self) -> (res: &Status)
        ensures
            res@ == self.status(),
    {
        &self.status
    }

    /// What a send on the status channel comes to: the channel refuses a
    /// snapshot only when nobody is left to receive it.
    pub fn delivery(sent: Result<(), SendError<Status>>) -> (res: Result<(), Error>)
        ensures
            sent is Ok ==> res == Ok::<(), Error>(()),
            sent is Err ==> res == Err::<(), Error>(Error::ChannelClosed),
    {
        match sent {
            Ok(()) => Ok(()),
            Err(_) => Err(Error::ChannelClosed),
        }
    }

    /// Publishes a copy of the current status.
    fn send_status(&mut self) -> (res: Result<(), Error>)
        ensures
            final(self).status() == old(self).status(),
            res is Ok ==> final(self).published() == old(self).published().push(
                old(self).status(),
            ),
            res is Err ==> final(self).published() == old(self).published(),
            res is Err ==> res == Err::<(), Error>(Error::ChannelClosed),
    {
        let snapshot = self.status.clone();
        let res = Self::delivery(self.chan.send(snapshot));
        proof {
            if res is Ok {
                self.published@ = self.published@.push(self.status@);
            }
        }
        res
    }

    /// Sets the state and publishes the status.
    pub fn set_state(&mut self, state: State) -> (res: Result<(), Error>)
        ensures
            Self::changed(*old(self), UpdateView::State(state@), *final(self), res),
    {
        self.status.state = state;
        self.send_status()
    }

    /// Sets the task index, resets the repetition and the action index to
    /// 0, and publishes the status.
    pub fn set_task(&mut self, task: u64) -> (res: Result<(), Error>)
        ensures
            Self::changed(*old(self), UpdateView::Task(task as nat), *final(self), res),
    {
        self.status.task = task;
        self.status.craft = 0;
        self.status.step = 0;
        self.send_status()
    }

    /// Sets the repetition index, resets the action index to 0, and
    /// publishes the status.
    pub fn set_craft(&mut self, craft: u64) -> (res: Result<(), Error>)
        ensures
            Self::changed(*old(self), UpdateView::Craft(craft as nat), *final(self), res),
    {
        self.status.craft = craft;
        self.status.step = 0;
        self.send_status()
    }

    /// Sets the action index and publishes the status.
    pub fn set_step(&mut self, step: u64) -> (res: Result<(), Error>)
        ensures
            Self::changed(*old(self), UpdateView::Step(step as nat), *final(self), res),
    {
        self.status.step = step;
        self.send_status()
    }

    /// Makes the given change through the setter that belongs to it.
    pub fn update(&mut self, update: Update) -> (res: Result<(), Error>)
        ensures
            Self::changed(*old(self), update@, *final(self), res),
    {
        match update {
            Update::State(state) => self.set_state(state),
            Update::Task(task) => self.set_task(task),
            Update::Craft(craft) => self.set_craft(craft),
            Update::Step(step) => self.set_step(step),
        }
    }
}

} // verus!
