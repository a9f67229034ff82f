//! The pipeline orchestrator's decision core.
//!
//! One run walks a fixed state machine: `Init`, `PlanResolved`,
//! `Converting`, then exactly one of `Succeeded` or `Failed`. A format
//! with no implemented conversion route is refused before any worker is
//! spawned, and the worker's outcome — success, or its failure text — is
//! always carried back to the caller as a typed result, never dropped.

use vstd::prelude::*;
use vstd::string::StringExecFns;
use crate::errors::{CliError, ErrorKind};
use crate::format::OutputFormat;

verus! {

/// The stations of one run. The last two are terminal: a failed
/// conversion ends the invocation, with no retry.
#[derive(Clone, Copy, Debug, PartialEq, Eq, Structural)]
pub enum RunPhase {
    Init,
    PlanResolved,
    Converting,
    Succeeded,
    Failed,
}

impl RunPhase {
    /// Whether the run has ended, one way or the other.
    pub open spec fn is_terminal(self) -> bool {
        self == RunPhase::Succeeded || self == RunPhase::Failed
    }
}

/// The formats with an implemented conversion route.
pub open spec fn conversion_implemented(f: OutputFormat) -> bool {
    f == OutputFormat::Gif
}

/// Refuse, before any worker is spawned, a format that has no conversion
/// route, rather than spawning a worker that would silently do nothing.
pub fn preflight_format(f: OutputFormat) -> (r: Result<(), CliError>)
    ensures
        match r {
            Ok(_) => conversion_implemented(f),
            Err(e) => {
                &&& !conversion_implemented(f)
                &&& e.kind == ErrorKind::NotImplemented
                &&& e.context@
                    == "File format not implemented yet. Open an issue to tell me you want this feature sooner. :)"@
                &&& e.cause@.len() == 0
            },
        },
{
    match f {
        OutputFormat::Gif => Ok(()),
        _ => Err(
            CliError::new(
                ErrorKind::NotImplemented,
                String::from_str(
                    "File format not implemented yet. Open an issue to tell me you want this feature sooner. :)",
                ),
                String::new(),
            ),
        ),
    }
}

/// Tracks one run through its state machine. Each step demands the one
/// station it may start from, so no run retries, skips a station, or
/// leaves a terminal station.
pub struct RunTracker {
    pub phase: RunPhase,
}

impl RunTracker {
    /// A run about to begin.
    pub fn new() -> (r: RunTracker)
        ensures
            r.phase == RunPhase::Init,
    {
        RunTracker { phase: RunPhase::Init }
    }

    /// The resolver produced a validated plan.
    pub fn plan_resolved(&mut self)
        requires
            old(self).phase == RunPhase::Init,
        ensures
            final(self).phase == RunPhase::PlanResolved,
    {
        self.phase = RunPhase::PlanResolved;
    }

    /// The worker was spawned and the conversion is under way.
    pub fn conversion_started(&mut self)
        requires
            old(self).phase == RunPhase::PlanResolved,
        ensures
            final(self).phase == RunPhase::Converting,
    {
        self.phase = RunPhase::Converting;
    }

    /// Take delivery of the worker's outcome. A success ends the run in
    /// `Succeeded`; a failure ends it in `Failed` and hands the worker's
    /// own words back as a typed conversion error — never swallowed.
    pub fn complete(&mut self, worker: Result<(), String>) -> (r: Result<(), CliError>)
        requires
            old(self).phase == RunPhase::Converting,
        ensures
            final(self).phase.is_terminal(),
            match worker {
                Ok(_) => final(self).phase == RunPhase::Succeeded && r is Ok,
                Err(m) => {
                    &&& final(self).phase == RunPhase::Failed
                    &&& r matches Err(e) && e.kind == ErrorKind::Conversion && e.context@
                        == "The conversion failed"@ && e.cause@ == m@
                },
            },
    {
        match worker {
            Ok(_) => {
                self.phase = RunPhase::Succeeded;
                Ok(())
            },
            Err(m) => {
                self.phase = RunPhase::Failed;
                Err(CliError::new(ErrorKind::Conversion, String::from_str("The conversion failed"), m))
            },
        }
    }
}

} // verus!
