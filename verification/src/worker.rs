//! The decisions of the worker that carries out the batches.
//!
//! One worker owns the game window. It is handed commands through a queue
//! and serves them one at a time, in the order in which they were
//! submitted.

use crate::error::Error;
use crate::task::task_views;
use crate::task::Task;
use crate::task::TaskView;
use vstd::prelude::*;

verus! {

/// What the owner of a worker asks of it.
#[derive(Debug, PartialEq, Eq)]
pub enum Command {
    /// Carry out this batch of tasks.
    Tasks(Vec<Task>),
    /// Stop.
    Exit,
}

/// What the worker does next.
#[derive(Debug, PartialEq, Eq)]
pub enum Step {
    /// Carry out this batch from its first command to its last, and then ask
    /// for the next command.
    Run(Vec<Task>),
    /// End the worker.
    Stop,
}

/// A `Step` as a mathematical value.
pub enum StepView {
    Run(Seq<TaskView>),
    Stop,
}

impl View for Step {
    type V = StepView;

    open spec fn view(&self) -> StepView {
        match self {
            Step::Run(tasks) => StepView::Run(task_views(tasks@)),
            Step::Stop => StepView::Stop,
        }
    }
}

/// What the worker does with what it took from its queue: a batch is
/// carried out; the command to stop, or a queue that nobody can fill any
/// more, ends the worker. Since the queue is only looked at between
/// batches, a batch that has begun is never cut short by a command.
pub open spec fn step_for(received: Option<Command>) -> StepView {
    match received {
        Some(Command::Tasks(tasks)) => StepView::Run(task_views(tasks@)),
        Some(Command::Exit) => StepView::Stop,
        None => StepView::Stop,
    }
}

/// What the worker does with what it took from its queue; `None` stands for
/// a queue whose sending end is gone.
pub fn next_step(received: Option<Command>) -> (res: Step)
    ensures
        res@ == step_for(received),
{
    match received {
        Some(Command::Tasks(tasks)) => Step::Run(tasks),
        Some(Command::Exit) => Step::Stop,
        None => Step::Stop,
    }
}

/// Whether a worker can be set up: it cannot without the game window.
pub fn started(window_found: bool) -> (res: Result<(), Error>)
    ensures
        window_found ==> res == Ok::<(), Error>(()),
        !window_found ==> res == Err::<(), Error>(Error::TargetNotFound),
{
    if window_found {
        Ok(())
    } else {
        Err(Error::TargetNotFound)
    }
}

/// What the owner learns when it joins the worker: the worker's own result
/// if the worker came to an end by itself, and `WorkerTerminated` if it
/// broke down, for which `None` stands.
pub fn joined(outcome: Option<Result<(), Error>>) -> (res: Result<(), Error>)
    ensures
        res == match outcome {
            Some(result) => result,
            None => Err::<(), Error>(Error::WorkerTerminated),
        },
{
    match outcome {
        Some(result) => result,
        None => Err(Error::WorkerTerminated),
    }
}

} // verus!
