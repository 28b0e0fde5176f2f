//! Hysteresis trigger that shows a status bar when the pointer reaches the
//! top edge of the screen and hides it once the pointer has moved well away.
//!
//! The library holds every decision: reading the payload argument, the
//! show/hide state machine, the order of the outside work it asks for, and
//! an in-memory host on which whole invocations can be run and reasoned
//! about. The program around it performs the file and process work.

mod failure;
mod position;
mod controller;
mod host;
mod laws;

pub use failure::{failure_code, failure_message, Failure};
pub use position::{payload_argument, Coordinate};
pub use controller::{
    advance, decide, decision, next_step, report_fits, Action, Config, Report, Step, Task,
};
pub use host::{has_room, invoke, outcome, performed, rank, run, MemoryHost};
pub use laws::{
    lemma_dead_zone_keeps_state, lemma_hide_clears_marker, lemma_show_hide_round_trip,
    lemma_show_once_then_idle, reliable,
};
