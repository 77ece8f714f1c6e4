use talan::progress::update_for;
use talan::progress::BarUpdate;
use talan::status::State;
use talan::status::Status;

fn nothing() -> BarUpdate {
    BarUpdate {
        craft: None,
        step: None,
        redraw_every_step: false,
        message: None,
        done: false,
    }
}

fn status(state: State, craft: u64, step: u64) -> Status {
    Status { state, task: 0, craft, step }
}

#[test]
fn queued_changes_nothing() {
    assert_eq!(update_for(&status(State::Queued, 3, 4)), nothing());
}

#[test]
fn initializing_sets_the_message() {
    assert_eq!(
        update_for(&status(State::Initializing, 3, 4)),
        BarUpdate { message: Some(String::from("Initializing")), ..nothing() }
    );
}

#[test]
fn setup_moves_the_bar_of_repetitions() {
    assert_eq!(
        update_for(&status(State::Setup, 3, 4)),
        BarUpdate {
            craft: Some(3),
            message: Some(String::from("Setting up")),
            ..nothing()
        }
    );
}

#[test]
fn crafting_moves_the_bar_of_actions() {
    assert_eq!(
        update_for(&status(State::Crafting(String::from("Innovation")), 3, 4)),
        BarUpdate {
            step: Some(4),
            message: Some(String::from("Innovation")),
            ..nothing()
        }
    );
}

#[test]
fn first_step_redraws_on_every_change() {
    assert_eq!(
        update_for(&status(State::Crafting(String::from("Innovation")), 3, 0)),
        BarUpdate {
            step: Some(0),
            redraw_every_step: true,
            message: Some(String::from("Innovation")),
            ..nothing()
        }
    );
}

#[test]
fn done_ends_the_stream() {
    assert_eq!(
        update_for(&status(State::Done, 3, 4)),
        BarUpdate { done: true, ..nothing() }
    );
}
