//! The ways a crafting run can fail.

use vstd::prelude::*;

verus! {

/// A fatal condition. None of them is retried.
#[derive(Debug, PartialEq, Eq, Structural, Clone, Copy)]
pub enum Error {
    /// The game window could not be located.
    TargetNotFound,
    /// The other end of the status channel is gone.
    ChannelClosed,
    /// The worker thread ended unexpectedly.
    WorkerTerminated,
}

impl Error {
    /// The text shown to the user for this error.
    pub open spec fn text(self) -> Seq<char> {
        match self {
            Error::TargetNotFound => "Could not find FFXIV window. Is the client running?"@,
            Error::ChannelClosed => "status channel closed"@,
            Error::WorkerTerminated => "worker thread terminated"@,
        }
    }

    /// Renders the error as a message.
    pub fn message(&self) -> (res: String)
        ensures
            res@ == self.text(),
    {
        match self {
            Error::TargetNotFound => {
                "Could not find FFXIV window. Is the client running?".to_owned()
            },
            Error::ChannelClosed => "status channel closed".to_owned(),
            Error::WorkerTerminated => "worker thread terminated".to_owned(),
        }
    }
}

} // verus!
