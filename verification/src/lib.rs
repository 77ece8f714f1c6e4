//! Crafting automation for a keystroke-driven game client.
//!
//! The game offers no interface but its menus, so a batch of crafting tasks
//! is carried out by pressing keys, typing chat commands and waiting, all at
//! the right moments and with nothing read back. This library decides what
//! is sent and when:
//!
//! - [`craft`] compiles a batch of [`task`]s into a [`script`]: the exact,
//!   ordered list of key presses, typed characters, waits and progress
//!   reports that carries the batch out. [`role_actions`] keeps track of the
//!   role action slots on the way, so that no slot is set up twice.
//! - [`runner`] walks a script. It publishes the progress reports as
//!   [`status`] snapshots on a channel and hands the [`input`]s, one at a
//!   time, to whoever owns the game window. When nobody listens on the
//!   channel any more, the walk ends at once.
//! - [`laws`] proves what every script and every walk have in common.
//! - [`worker`] and [`progress`] hold the decisions of the two threads
//!   around a walk: the one that performs the inputs and the one that shows
//!   the progress.
//! - [`macros`] reads rotations from macro texts, and [`garland`] knows the
//!   addresses of the recipe database.

pub mod craft;
pub mod decimal;
pub mod error;
pub mod garland;
pub mod input;
pub mod laws;
pub mod macros;
pub mod progress;
pub mod role_actions;
pub mod runner;
pub mod script;
pub mod status;
pub mod task;
pub mod text;
pub mod worker;
