use std::sync::mpsc;
use talan::error::Error;
use talan::status::reception;
use talan::status::State;
use talan::status::Status;
use talan::status::StatusSender;
use talan::status::Update;

fn status(state: State, task: u64, craft: u64, step: u64) -> Status {
    Status { state, task, craft, step }
}

#[test]
fn status_sender_test() {
    let (tx, rx) = mpsc::channel();
    let mut sender = StatusSender::new(tx);

    sender.set_step(2).unwrap();
    assert_eq!(
        rx.recv().unwrap(),
        Status {
            state: State::Queued,
            task: 0,
            craft: 0,
            step: 2,
        }
    );

    sender.set_craft(3).unwrap();
    assert_eq!(
        rx.recv().unwrap(),
        Status {
            state: State::Queued,
            task: 0,
            craft: 3,
            step: 0,
        }
    );

    sender.set_task(4).unwrap();
    assert_eq!(
        rx.recv().unwrap(),
        Status {
            state: State::Queued,
            task: 4,
            craft: 0,
            step: 0,
        }
    );

    sender.set_state(State::Done).unwrap();
    assert_eq!(
        rx.recv().unwrap(),
        Status {
            state: State::Done,
            task: 4,
            craft: 0,
            step: 0,
        }
    );
}

#[test]
fn new_sender_starts_queued_at_zero() {
    let (tx, rx) = mpsc::channel();
    let sender = StatusSender::new(tx);
    assert_eq!(*sender.current(), status(State::Queued, 0, 0, 0));
    assert!(rx.try_recv().is_err());
}

#[test]
fn set_task_resets_craft_and_step() {
    let (tx, rx) = mpsc::channel();
    let mut sender = StatusSender::new(tx);
    sender.set_craft(5).unwrap();
    sender.set_step(7).unwrap();
    sender.set_task(1).unwrap();
    assert_eq!(*sender.current(), status(State::Queued, 1, 0, 0));
    let seen: Vec<Status> = rx.try_iter().collect();
    assert_eq!(
        seen,
        vec![
            status(State::Queued, 0, 5, 0),
            status(State::Queued, 0, 5, 7),
            status(State::Queued, 1, 0, 0),
        ]
    );
}

#[test]
fn set_craft_resets_step_only() {
    let (tx, rx) = mpsc::channel();
    let mut sender = StatusSender::new(tx);
    sender.set_task(2).unwrap();
    sender.set_step(9).unwrap();
    sender.set_craft(4).unwrap();
    assert_eq!(*sender.current(), status(State::Queued, 2, 4, 0));
    assert_eq!(rx.try_iter().count(), 3);
}

#[test]
fn set_state_keeps_the_indices() {
    let (tx, rx) = mpsc::channel();
    let mut sender = StatusSender::new(tx);
    sender.set_task(1).unwrap();
    sender.set_craft(2).unwrap();
    sender.set_step(3).unwrap();
    sender
        .set_state(State::Crafting(String::from("Basic Synthesis")))
        .unwrap();
    let seen: Vec<Status> = rx.try_iter().collect();
    assert_eq!(
        seen[3],
        status(State::Crafting(String::from("Basic Synthesis")), 1, 2, 3)
    );
}

#[test]
fn every_change_is_seen_once_and_in_order() {
    let (tx, rx) = mpsc::channel();
    let mut sender = StatusSender::new(tx);
    sender.update(Update::Task(3)).unwrap();
    sender.update(Update::State(State::Initializing)).unwrap();
    sender.update(Update::Craft(1)).unwrap();
    sender.update(Update::State(State::Setup)).unwrap();
    sender.update(Update::Step(0)).unwrap();
    sender.update(Update::Step(1)).unwrap();
    sender.update(Update::State(State::Done)).unwrap();
    let seen: Vec<Status> = rx.try_iter().collect();
    assert_eq!(
        seen,
        vec![
            status(State::Queued, 3, 0, 0),
            status(State::Initializing, 3, 0, 0),
            status(State::Initializing, 3, 1, 0),
            status(State::Setup, 3, 1, 0),
            status(State::Setup, 3, 1, 0),
            status(State::Setup, 3, 1, 1),
            status(State::Done, 3, 1, 1),
        ]
    );
}

#[test]
fn closed_channel_is_reported() {
    let (tx, rx) = mpsc::channel();
    let mut sender = StatusSender::new(tx);
    drop(rx);
    assert_eq!(sender.set_step(2), Err(Error::ChannelClosed));
    assert_eq!(sender.set_craft(1), Err(Error::ChannelClosed));
    assert_eq!(sender.set_task(1), Err(Error::ChannelClosed));
    assert_eq!(sender.set_state(State::Done), Err(Error::ChannelClosed));
    assert_eq!(sender.update(Update::Step(1)), Err(Error::ChannelClosed));
}

#[test]
fn status_changes_even_when_the_channel_is_closed() {
    let (tx, rx) = mpsc::channel();
    let mut sender = StatusSender::new(tx);
    drop(rx);
    assert!(sender.set_task(6).is_err());
    assert!(sender.set_step(2).is_err());
    assert_eq!(*sender.current(), status(State::Queued, 6, 0, 2));
}

#[test]
fn a_refused_send_is_a_closed_channel() {
    let snapshot = status(State::Queued, 0, 0, 0);
    assert_eq!(StatusSender::delivery(Ok(())), Ok(()));
    assert_eq!(
        StatusSender::delivery(Err(mpsc::SendError(snapshot))),
        Err(Error::ChannelClosed)
    );
}

#[test]
fn a_failed_receive_is_a_closed_channel() {
    let (tx, rx) = mpsc::channel();
    let mut sender = StatusSender::new(tx);
    sender.set_step(1).unwrap();
    drop(sender);
    assert_eq!(reception(rx.recv()), Ok(status(State::Queued, 0, 0, 1)));
    assert_eq!(reception(rx.recv()), Err(Error::ChannelClosed));
}

#[test]
fn snapshots_are_copies() {
    let (tx, rx) = mpsc::channel();
    let mut sender = StatusSender::new(tx);
    sender.set_step(1).unwrap();
    sender.set_step(2).unwrap();
    assert_eq!(rx.recv().unwrap().step, 1);
    assert_eq!(rx.recv().unwrap().step, 2);
}

#[test]
fn clones_are_equal() {
    let state = State::Crafting(String::from("Innovation"));
    assert_eq!(state.clone(), state);
    let snapshot = status(state, 1, 2, 3);
    assert_eq!(snapshot.clone(), snapshot);
    let update = Update::State(State::Setup);
    assert_eq!(update.clone(), update);
}

#[test]
fn error_messages() {
    assert_eq!(
        Error::TargetNotFound.message(),
        "Could not find FFXIV window. Is the client running?"
    );
    assert_eq!(Error::ChannelClosed.message(), "status channel closed");
    assert_eq!(Error::WorkerTerminated.message(), "worker thread terminated");
}
