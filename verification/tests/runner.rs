use std::sync::mpsc;
use talan::craft::craft_items;
use talan::error::Error;
use talan::input::Input;
use talan::input::Key;
use talan::role_actions::RoleActions;
use talan::runner::Runner;
use talan::script::Script;
use talan::status::State;
use talan::status::Status;
use talan::status::Update;
use talan::task::Action;
use talan::task::Item;
use talan::task::Material;
use talan::task::Task;

fn status(state: State, task: u64, craft: u64, step: u64) -> Status {
    Status { state, task, craft, step }
}

fn sample() -> Script {
    let mut script = Script::new();
    script.report(Update::Task(1));
    script.report(Update::State(State::Initializing));
    script.press(Key::Escape);
    script.wait_ms(200);
    script.report(Update::Craft(1));
    script.send_char('a');
    script.report(Update::State(State::Done));
    script
}

#[test]
fn runner_hands_out_the_inputs_in_order() {
    let (tx, rx) = mpsc::channel();
    let mut runner = Runner::new(sample(), tx);
    assert_eq!(runner.next_input(), Ok(Some(Input::Press(Key::Escape))));
    assert_eq!(runner.next_input(), Ok(Some(Input::Wait(200))));
    assert_eq!(runner.next_input(), Ok(Some(Input::Char('a'))));
    assert_eq!(runner.next_input(), Ok(None));
    assert_eq!(runner.next_input(), Ok(None));
    assert!(runner.is_finished());
    drop(rx);
}

#[test]
fn runner_publishes_between_the_inputs() {
    let (tx, rx) = mpsc::channel();
    let mut runner = Runner::new(sample(), tx);
    assert!(rx.try_recv().is_err());

    runner.next_input().unwrap();
    let seen: Vec<Status> = rx.try_iter().collect();
    assert_eq!(
        seen,
        vec![status(State::Queued, 1, 0, 0), status(State::Initializing, 1, 0, 0)]
    );

    runner.next_input().unwrap();
    assert!(rx.try_recv().is_err());

    runner.next_input().unwrap();
    let seen: Vec<Status> = rx.try_iter().collect();
    assert_eq!(seen, vec![status(State::Initializing, 1, 1, 0)]);

    assert!(!runner.is_finished());
    runner.next_input().unwrap();
    let seen: Vec<Status> = rx.try_iter().collect();
    assert_eq!(seen, vec![status(State::Done, 1, 1, 0)]);
    assert!(runner.is_finished());
}

#[test]
fn runner_on_an_empty_script() {
    let (tx, rx) = mpsc::channel();
    let mut runner = Runner::new(Script::new(), tx);
    assert!(runner.is_finished());
    assert_eq!(runner.next_input(), Ok(None));
    assert!(rx.try_recv().is_err());
}

#[test]
fn runner_without_reports_needs_no_receiver() {
    let (tx, rx) = mpsc::channel();
    drop(rx);
    let mut script = Script::new();
    script.press(Key::Up);
    script.press(Key::Down);
    let mut runner = Runner::new(script, tx);
    assert_eq!(runner.next_input(), Ok(Some(Input::Press(Key::Up))));
    assert_eq!(runner.next_input(), Ok(Some(Input::Press(Key::Down))));
    assert_eq!(runner.next_input(), Ok(None));
}

#[test]
fn closed_channel_stops_the_run_before_any_input() {
    let (tx, rx) = mpsc::channel();
    drop(rx);
    let mut runner = Runner::new(sample(), tx);
    assert_eq!(runner.next_input(), Err(Error::ChannelClosed));
    assert_eq!(runner.next_input(), Err(Error::ChannelClosed));
    assert_eq!(runner.next_input(), Err(Error::ChannelClosed));
    assert!(!runner.is_finished());
}

#[test]
fn closed_channel_stops_the_run_midway() {
    let (tx, rx) = mpsc::channel();
    let mut runner = Runner::new(sample(), tx);
    assert_eq!(runner.next_input(), Ok(Some(Input::Press(Key::Escape))));
    assert_eq!(runner.next_input(), Ok(Some(Input::Wait(200))));
    drop(rx);
    assert_eq!(runner.next_input(), Err(Error::ChannelClosed));
    assert_eq!(runner.next_input(), Err(Error::ChannelClosed));
    assert!(!runner.is_finished());
}

#[test]
fn a_whole_batch_runs_to_done() {
    let mut roles = RoleActions::new(vec![String::from("Innovation")]);
    let job = Task {
        item: Item {
            name: String::from("Iron Ingot"),
            materials: vec![Material { name: String::from("Iron Ore"), count: 2 }],
        },
        index: 0,
        count: 2,
        actions: vec![
            Action { name: String::from("Innovation"), wait: 2 },
            Action { name: String::from("Basic Synthesis"), wait: 3 },
        ],
        gearset: 0,
        collectable: false,
    };
    let mut script = Script::new();
    craft_items(&mut script, &mut roles, &vec![job]);

    let (tx, rx) = mpsc::channel();
    let mut runner = Runner::new(script, tx);
    let mut inputs = 0;
    let mut waited = 0;
    while let Some(input) = runner.next_input().unwrap() {
        inputs += 1;
        if let Input::Wait(ms) = input {
            waited += ms;
        }
    }
    assert!(inputs > 0);
    // per repetition: 2000 before the rotation, 50 + 1700 and 50 + 2200 in
    // it, 4000 after it; around them: 1000 to close menus, 250 for the role
    // action, 1000 for the crafting log, 200 + 1000 for the search, and 1000
    // + 2000 to leave
    assert_eq!(waited, 2 * (2000 + 50 + 1700 + 50 + 2200 + 4000) + 1000 + 250 + 1000 + 1200 + 3000);

    let seen: Vec<Status> = rx.try_iter().collect();
    let crafting = |name: &str| State::Crafting(String::from(name));
    assert_eq!(
        seen,
        vec![
            status(State::Queued, 0, 0, 0),
            status(State::Initializing, 0, 0, 0),
            status(State::Initializing, 0, 1, 0),
            status(State::Setup, 0, 1, 0),
            status(crafting("Innovation"), 0, 1, 0),
            status(crafting("Innovation"), 0, 1, 0),
            status(crafting("Basic Synthesis"), 0, 1, 0),
            status(crafting("Basic Synthesis"), 0, 1, 1),
            status(crafting("Basic Synthesis"), 0, 1, 2),
            status(crafting("Finishing"), 0, 1, 2),
            status(crafting("Finishing"), 0, 2, 0),
            status(State::Setup, 0, 2, 0),
            status(crafting("Innovation"), 0, 2, 0),
            status(crafting("Innovation"), 0, 2, 0),
            status(crafting("Basic Synthesis"), 0, 2, 0),
            status(crafting("Basic Synthesis"), 0, 2, 1),
            status(crafting("Basic Synthesis"), 0, 2, 2),
            status(crafting("Finishing"), 0, 2, 2),
            status(State::Done, 0, 2, 2),
        ]
    );
}
