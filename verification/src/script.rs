//! Scripts: ordered lists of inputs and progress reports.

use crate::input::Input;
use crate::input::Key;
use crate::status::Update;
use crate::status::UpdateView;
use vstd::prelude::*;

verus! {

/// One entry of a script.
#[derive(Debug, PartialEq)]
pub enum Command {
    /// Send this input to the game window.
    Input(Input),
    /// Make this change to the status and publish the result.
    Report(Update),
}

/// A `Command` as a mathematical value.
pub enum CommandView {
    Input(Input),
    Report(UpdateView),
}

impl View for Command {
    type V = CommandView;

    open spec fn view(&self) -> CommandView {
        match self {
            Command::Input(input) => CommandView::Input(*input),
            Command::Report(update) => CommandView::Report(update@),
        }
    }
}

impl Clone for Command {
    fn clone(&self) -> (res: Command)
        ensures
            res == *self,
    {
        match self {
            Command::Input(input) => Command::Input(*input),
            Command::Report(update) => Command::Report(update.clone()),
        }
    }
}

/// Pressing `key` once.
pub open spec fn key_press(key: Key) -> CommandView {
    CommandView::Input(Input::Press(key))
}

/// Pressing `key` `times` times in a row.
pub open spec fn key_presses(key: Key, times: nat) -> Seq<CommandView> {
    Seq::new(times, |i: int| key_press(key))
}

/// Typing the character `c`.
pub open spec fn key_in(c: char) -> CommandView {
    CommandView::Input(Input::Char(c))
}

/// Typing `text`, one character at a time.
pub open spec fn typed(text: Seq<char>) -> Seq<CommandView> {
    Seq::new(text.len(), |i: int| key_in(text[i]))
}

/// Typing one text after another is typing their concatenation.
pub proof fn lemma_typed_concat(a: Seq<char>, b: Seq<char>)
    ensures
        typed(a + b) == typed(a) + typed(b),
{
}

/// Typing a text and then one more character is typing the text that ends in
/// that character.
pub proof fn lemma_typed_push(a: Seq<char>, c: char)
    ensures
        typed(a.push(c)) == typed(a).push(key_in(c)),
{
}

/// Waiting for `ms` milliseconds.
pub open spec fn pause(ms: nat) -> CommandView
    recommends
        ms <= u64::MAX,
{
    CommandView::Input(Input::Wait(ms as u64))
}

/// Publishing `update`.
pub open spec fn reported(update: UpdateView) -> CommandView {
    CommandView::Report(update)
}

/// The inputs among the commands of `script`, in order.
pub open spec fn inputs_of(script: Seq<CommandView>) -> Seq<Input>
    decreases script.len(),
{
    if script.len() == 0 {
        Seq::empty()
    } else {
        match script.last() {
            CommandView::Input(input) => inputs_of(script.drop_last()).push(input),
            CommandView::Report(_) => inputs_of(script.drop_last()),
        }
    }
}

/// The status updates among the commands of `script`, in order.
pub open spec fn updates_of(script: Seq<CommandView>) -> Seq<UpdateView>
    decreases script.len(),
{
    if script.len() == 0 {
        Seq::empty()
    } else {
        match script.last() {
            CommandView::Input(_) => updates_of(script.drop_last()),
            CommandView::Report(update) => updates_of(script.drop_last()).push(update),
        }
    }
}

/// Whether `script` holds nothing but status updates from position `from`
/// up to, but not including, position `to`.
pub open spec fn reports_between(script: Seq<CommandView>, from: int, to: int) -> bool {
    forall|i: int| from <= i < to ==> #[trigger] script[i] is Report
}

/// The commands of a run, in the order in which they are carried out.
pub struct Script {
    commands: Vec<Command>,
}

impl View for Script {
    type V = Seq<CommandView>;

    closed spec fn view(&self) -> Seq<CommandView> {
        self.commands@.map_values(|c: Command| c@)
    }
}

impl Script {
    /// The empty script.
    pub fn new() -> (res: Script)
        ensures
            res@ == Seq::<CommandView>::empty(),
    {
        Script { commands: Vec::new() }
    }

    /// The number of commands.
    pub fn len(&self) -> (res: usize)
        ensures
            res == self@.len(),
    {
        self.commands.len()
    }

    /// The commands, in order.
    pub fn commands(&self) -> (res: &Vec<Command>)
        ensures
            res@.len() == self@.len(),
            forall|i: int| 0 <= i < res@.len() ==> res@[i]@ == self@[i],
    {
        &self.commands
    }

    /// The command at position `i`.
    pub fn command(&self, i: usize) -> (res: &Command)
        requires
            i < self@.len(),
        ensures
            res@ == self@[i as int],
    {
        &self.commands[i]
    }

    /// The command at position `i`, if the script is that long.
    pub fn get(&self, i: usize) -> (res: Option<&Command>)
        ensures
            match res {
                Some(command) => i < self@.len() && command@ == self@[i as int],
                None => i >= self@.len(),
            },
    {
        if i < self.commands.len() {
            Some(&self.commands[i])
        } else {
            None
        }
    }

    /// Appends one press of `key`.
    pub fn press(&mut self, key: Key)
        ensures
            final(self)@ == old(self)@.push(key_press(key)),
    {
        self.commands.push(Command::Input(Input::Press(key)));
    }

    /// Appends `times` presses of `key`.
    pub fn press_times(&mut self, key: Key, times: u64)
        ensures
            final(self)@ == old(self)@ + key_presses(key, times as nat),
    {
        let mut done: u64 = 0;
        while done < times
            invariant
                done <= times,
                self@ == old(self)@ + key_presses(key, done as nat),
            decreases times - done,
        {
            self.press(key);
            done = done + 1;
        }
    }

    /// Appends the typing of one character.
    pub fn send_char(&mut self, c: char)
        ensures
            final(self)@ == old(self)@.push(key_in(c)),
    {
        self.commands.push(Command::Input(Input::Char(c)));
    }

    /// Appends a wait of `ms` milliseconds.
    pub fn wait_ms(&mut self, ms: u64)
        ensures
            final(self)@ == old(self)@.push(pause(ms as nat)),
    {
        self.commands.push(Command::Input(Input::Wait(ms)));
    }

    /// Appends a wait of `secs` seconds.
    pub fn wait_secs(&mut self, secs: u32)
        ensures
            final(self)@ == old(self)@.push(pause(secs as nat * 1000)),
    {
        let secs: u64 = secs as u64;
        self.wait_ms(secs * 1000);
    }

    /// Appends the publication of `update`.
    pub fn report(&mut self, update: Update)
        ensures
            final(self)@ == old(self)@.push(reported(update@)),
    {
        self.commands.push(Command::Report(update));
    }
}

} // verus!
