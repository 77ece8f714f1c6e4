use talan::error::Error;
use talan::task::Item;
use talan::task::Task;
use talan::worker::joined;
use talan::worker::next_step;
use talan::worker::started;
use talan::worker::Command;
use talan::worker::Step;

fn batch() -> Vec<Task> {
    vec![Task {
        item: Item { name: String::from("Iron Ingot"), materials: vec![] },
        index: 0,
        count: 1,
        actions: vec![],
        gearset: 0,
        collectable: false,
    }]
}

#[test]
fn a_batch_is_run() {
    assert_eq!(next_step(Some(Command::Tasks(batch()))), Step::Run(batch()));
    assert_eq!(next_step(Some(Command::Tasks(vec![]))), Step::Run(vec![]));
}

#[test]
fn exit_stops_the_worker() {
    assert_eq!(next_step(Some(Command::Exit)), Step::Stop);
}

#[test]
fn a_dead_queue_stops_the_worker() {
    assert_eq!(next_step(None), Step::Stop);
}

#[test]
fn no_window_no_worker() {
    assert_eq!(started(true), Ok(()));
    assert_eq!(started(false), Err(Error::TargetNotFound));
}

#[test]
fn joining_surfaces_the_workers_result() {
    assert_eq!(joined(Some(Ok(()))), Ok(()));
    assert_eq!(joined(Some(Err(Error::ChannelClosed))), Err(Error::ChannelClosed));
    assert_eq!(joined(Some(Err(Error::TargetNotFound))), Err(Error::TargetNotFound));
    assert_eq!(joined(None), Err(Error::WorkerTerminated));
}
