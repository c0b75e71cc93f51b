//! Core of a terminal dashboard: a fixed-rate render loop that polls keyboard
//! input, routes it to independently-owned interactive panels, collects status
//! messages from those panels through a FIFO bus, and repaints a tiled screen
//! layout every tick. The drawing backend and the raw input source are outside
//! collaborators; this crate holds the orchestration logic and its proofs.

pub mod bus;
pub mod events;
pub mod layout;
pub mod runtime;
pub mod sched;
pub mod widget_one;
pub mod widget_two;
pub mod widget_three;
pub mod widget_four;

use vstd::prelude::*;

verus! {

/// Target cadence of the runtime loop, in milliseconds.
pub const TICK_RATE_MS: u64 = 250;

} // verus!
