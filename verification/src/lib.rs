//! A single-shot channel for beaming one value out of a newly spawned thread.
//!
//! A beam is made by [`channel`], which hands out its two ends. The sending
//! end is used up by [`ThreadBeamTx::send`], the receiving end by
//! [`ThreadBeamRx::recv`], which waits until the value is there or the
//! sending end is gone.
//!
//! The cell that the two ends share is a small state machine,
//! [`state::ThreadBeamState`]: one value slot and three status bits.
//! Everything that an end does to the cell is a transition of that machine,
//! and [`laws`] states what follows for every beam. Two modules put the cell
//! behind a lock: [`blocking`], whose items are also found at the root, and
//! [`spinning`] for targets that cannot block.

pub mod blocking;
pub mod laws;
mod shared;
pub mod spinning;
pub mod state;

pub use blocking::{channel, ThreadBeamRx, ThreadBeamTx};
