//! What holds of every script that the sequencer writes, and of every
//! stream of snapshots that a run publishes.

pub mod gearsets;
pub mod materials;
pub mod reports;
pub mod rotation;
pub mod slots;
pub mod stream;
