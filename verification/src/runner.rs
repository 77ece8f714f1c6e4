//! Carrying out a script, one input at a time.

use crate::error::Error;
use crate::input::Input;
use crate::script::inputs_of;
use crate::script::reports_between;
use crate::script::updates_of;
use crate::script::Command;
use crate::script::CommandView;
use crate::script::Script;
use crate::status::apply;
use crate::status::apply_all;
use crate::status::initial_status;
use crate::status::observations;
use crate::status::Status;
use crate::status::StatusSender;
use crate::status::StatusView;
use crate::status::UpdateView;
use std::sync::mpsc::Sender;
use vstd::prelude::*;

verus! {

/// Publishing one more update adds one observation: the status that the
/// update leaves.
pub proof fn lemma_observations_push(
    status: StatusView,
    updates: Seq<UpdateView>,
    update: UpdateView,
)
    ensures
        apply_all(status, updates.push(update)) == apply(apply_all(status, updates), update),
        observations(status, updates.push(update)) == observations(status, updates).push(
            apply_all(status, updates.push(update)),
        ),
{
    let longer = updates.push(update);
    assert(longer.drop_last() == updates);
    assert forall|i: int| 0 <= i < updates.len() implies #[trigger] longer.take(i + 1)
        == updates.take(i + 1) by {
        assert(longer.take(i + 1) =~= updates.take(i + 1));
    }
    assert(longer.take(updates.len() as int + 1) == longer);
}

/// Walks a script from its first command to its last. Status updates are
/// published as the walk passes them; inputs are handed out for the caller
/// to perform. Once the status channel has refused an update the walk is
/// over: nothing more is published and no input is handed out.
pub struct Runner {
    script: Script,
    next: usize,
    sender: StatusSender,
    closed: bool,
}

impl Runner {
    /// The script that is being carried out.
    pub closed spec fn script(&self) -> Seq<CommandView> {
        self.script@
    }

    /// The number of commands that the walk has passed.
    pub closed spec fn position(&self) -> nat {
        self.next as nat
    }

    /// The current status.
    pub closed spec fn status(&self) -> StatusView {
        self.sender.status()
    }

    /// Every snapshot that the status channel has accepted, oldest first.
    pub closed spec fn published(&self) -> Seq<StatusView> {
        self.sender.published()
    }

    /// Whether the status channel has refused an update.
    pub closed spec fn is_closed(&self) -> bool {
        self.closed
    }

    /// The walk never leaves the script, and what it has published is what
    /// the updates that it has passed come to: the status is the initial
    /// status with all of them applied, and the channel has accepted one
    /// snapshot for each of them, but for the last one if the channel is
    /// closed, which is the one that it refused. `new` establishes this and
    /// `next_input` keeps it.
    pub open spec fn wf(&self) -> bool {
        let updates = updates_of(self.passed());
        &&& self.position() <= self.script().len()
        &&& self.status() == apply_all(initial_status(), updates)
        &&& if self.is_closed() {
            &&& self.passed().len() > 0
            &&& self.passed().last() is Report
            &&& self.published() == observations(initial_status(), updates).drop_last()
        } else {
            self.published() == observations(initial_status(), updates)
        }
    }

    /// The commands that the walk has passed.
    pub open spec fn passed(&self) -> Seq<CommandView> {
        self.script().take(self.position() as int)
    }

    /// Every input that has been handed out, oldest first.
    pub open spec fn issued(&self) -> Seq<Input> {
        inputs_of(self.passed())
    }

    /// A walk that has reached the end of its script with the channel still
    /// open has handed out every input of the script and has published one
    /// snapshot for every update of the script, each in the order of the
    /// script.
    pub proof fn law_finished_walk(&self)
        requires
            self.wf(),
            !self.is_closed(),
            self.position() == self.script().len(),
        ensures
            self.issued() == inputs_of(self.script()),
            self.status() == apply_all(initial_status(), updates_of(self.script())),
            self.published() == observations(initial_status(), updates_of(self.script())),
    {
        assert(self.passed() == self.script());
    }

    /// A walk that the channel has closed has published one snapshot for
    /// every update that it has passed but the last, which the channel
    /// refused.
    pub proof fn law_closed_walk(&self)
        requires
            self.wf(),
            self.is_closed(),
        ensures
            updates_of(self.passed()).len() > 0,
            self.published() == observations(
                initial_status(),
                updates_of(self.passed()).drop_last(),
            ),
    {
        let updates = updates_of(self.passed());
        let shorter = updates.drop_last();
        assert forall|i: int| 0 <= i < shorter.len() implies #[trigger] shorter.take(i + 1)
            == updates.take(i + 1) by {
            assert(shorter.take(i + 1) =~= updates.take(i + 1));
        }
    }

    /// A walk at the start of `script` that publishes on `chan`.
    pub fn new(script: Script, chan: Sender<Status>) -> (res: Runner)
        ensures
            res.wf(),
            res.script() == script@,
            res.position() == 0,
            res.status() == initial_status(),
            res.published() == Seq::<StatusView>::empty(),
            !res.is_closed(),
    {
        assert(observations(initial_status(), Seq::<UpdateView>::empty()) == Seq::<
            StatusView,
        >::empty());
        Runner { script, next: 0, sender: StatusSender::new(chan), closed: false }
    }

    /// Whether the walk has reached the end of the script.
    pub fn is_finished(&self) -> (res: bool)
        requires
            self.wf(),
        ensures
            res == (self.position() == self.script().len()),
    {
        self.next == self.script.len()
    }

    /// Walks on to the next input and returns it, or `None` if the script
    /// holds none any more. Every status update on the way is published. If
    /// the channel refuses one, the walk stops behind that update for good
    /// and the result is `ChannelClosed`, now and on every later call.
    pub fn next_input(&mut self) -> (res: Result<Option<Input>, Error>)
        requires
            old(self).wf(),
        ensures
            final(self).wf(),
            final(self).script() == old(self).script(),
            old(self).position() <= final(self).position(),
            reports_between(
                old(self).script(),
                old(self).position() as int,
                final(self).position() - 1,
            ),
            old(self).is_closed() ==> ({
                &&& res == Err::<Option<Input>, Error>(Error::ChannelClosed)
                &&& final(self).is_closed()
                &&& final(self).position() == old(self).position()
                &&& final(self).status() == old(self).status()
                &&& final(self).published() == old(self).published()
            }),
            !old(self).is_closed() ==> (match res {
                Ok(Some(input)) => {
                    &&& !final(self).is_closed()
                    &&& final(self).position() > old(self).position()
                    &&& final(self).passed().last() == CommandView::Input(input)
                },
                Ok(None) => {
                    &&& !final(self).is_closed()
                    &&& final(self).position() == old(self).script().len()
                    &&& reports_between(
                        old(self).script(),
                        old(self).position() as int,
                        final(self).position() as int,
                    )
                },
                Err(error) => {
                    &&& error == Error::ChannelClosed
                    &&& final(self).is_closed()
                    &&& final(self).position() > old(self).position()
                    &&& reports_between(
                        old(self).script(),
                        old(self).position() as int,
                        final(self).position() as int,
                    )
                },
            }),
            final(self).issued() == (match res {
                Ok(Some(input)) => old(self).issued().push(input),
                _ => old(self).issued(),
            }),
    {
        if self.closed {
            return Err(Error::ChannelClosed);
        }
        let ghost script = self.script@;
        let ghost from = self.next as int;
        let len = self.script.len();
        while self.next < len
            invariant
                len == script.len(),
                self.script@ == script,
                script == old(self).script(),
                from == old(self).position(),
                from <= self.next <= len,
                !self.closed,
                !old(self).is_closed(),
                self.wf(),
                reports_between(script, from, self.next as int),
                inputs_of(script.take(self.next as int)) == inputs_of(script.take(from)),
            decreases len - self.next,
        {
            let command = self.script.command(self.next).clone();
            let ghost passed = script.take(self.next as int);
            proof {
                assert(script.take(self.next as int + 1).drop_last() == passed);
            }
            self.next = self.next + 1;
            match command {
                Command::Input(input) => {
                    return Ok(Some(input));
                },
                Command::Report(update) => {
                    proof {
                        lemma_observations_push(initial_status(), updates_of(passed), update@);
                    }
                    let ghost seen = observations(initial_status(), updates_of(passed));
                    if self.sender.update(update).is_err() {
                        self.closed = true;
                        assert(seen.push(self.sender.status()).drop_last() == seen);
                        return Err(Error::ChannelClosed);
                    }
                },
            }
        }
        Ok(None)
    }
}

} // verus!
