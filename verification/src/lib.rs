//! Run-orchestration core for a terminal-recording renderer.
//!
//! The library resolves raw command-line values into a validated execution
//! plan, tracks two-phase conversion progress behind monotonic display
//! state, models the single-run state machine of the conversion pipeline,
//! and classifies every failure into exactly one report channel.

pub mod errors;
pub mod format;
pub mod interval;
pub mod orchestrator;
pub mod plan;
pub mod progress;
pub mod report;
