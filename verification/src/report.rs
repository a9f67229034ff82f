//! The failure-containment boundary's reporting core.
//!
//! A run ends cleanly, with a typed error, or in an unexpected fault.
//! Each outcome is classified into at most one user-facing report,
//! carried through exactly one of two channels — the typed channel with
//! the error's causal chain, or the defect channel with a fixed text
//! directing the user to file a bug — and every report commands exit
//! code 1.

use vstd::prelude::*;
use vstd::string::StringExecFns;
use crate::errors::{error_message, CliError, ErrorKind};

verus! {

/// The two mutually exclusive reporting channels.
#[derive(Clone, Copy, Debug, PartialEq, Eq, Structural)]
pub enum ReportChannel {
    /// An expected, typed error, printed with its causal chain.
    TypedError,
    /// An unexpected internal fault, reported with the fixed defect text.
    Defect,
}

/// A single user-facing failure report and the exit code it commands.
pub struct Report {
    pub channel: ReportChannel,
    pub message: String,
    pub exit_code: u8,
}

/// How one run ended.
pub enum RunOutcome {
    /// The conversion finished and the output was written.
    Success,
    /// An expected failure, resolved or reported by the run itself.
    Error(CliError),
    /// An unexpected fault escaped the run.
    Panicked,
}

/// The fixed text reported for an unexpected internal fault.
pub open spec fn defect_text() -> Seq<char> {
    "The program has encountered a critical internal error and will now exit. This is a bug. Please report it on our issue tracker:\n\n    https://github.com/katharostech/cast2gif/issues"@
}

/// The channel an outcome reports through, if it reports at all.
pub open spec fn spec_channel(outcome: RunOutcome) -> Option<ReportChannel> {
    match outcome {
        RunOutcome::Success => None,
        RunOutcome::Error(_) => Some(ReportChannel::TypedError),
        RunOutcome::Panicked => Some(ReportChannel::Defect),
    }
}

/// Classify how a run ended into at most one report: none on success,
/// the error's full causal chain through the typed channel, or the fixed
/// defect text through the defect channel; both channels command exit 1.
pub fn outcome_report(outcome: RunOutcome) -> (r: Option<Report>)
    ensures
        match outcome {
            RunOutcome::Success => r is None,
            RunOutcome::Error(e) => (r matches Some(rep) && rep.channel
                == ReportChannel::TypedError && rep.exit_code == 1 && rep.message@
                == error_message(e.kind, e.context@, e.cause@)),
            RunOutcome::Panicked => (r matches Some(rep) && rep.channel
                == ReportChannel::Defect && rep.exit_code == 1 && rep.message@
                == defect_text()),
        },
        r matches Some(rep) ==> Some(rep.channel) == spec_channel(outcome),
        (r is None) <==> (spec_channel(outcome) is None),
{
    match outcome {
        RunOutcome::Success => None,
        RunOutcome::Error(e) => {
            let message = e.message();
            Some(Report { channel: ReportChannel::TypedError, message, exit_code: 1 })
        },
        RunOutcome::Panicked => Some(
            Report {
                channel: ReportChannel::Defect,
                message: String::from_str(
                    "The program has encountered a critical internal error and will now exit. This is a bug. Please report it on our issue tracker:\n\n    https://github.com/katharostech/cast2gif/issues",
                ),
                exit_code: 1,
            },
        ),
    }
}

/// Worker-failure propagation: a conversion error as the orchestrator
/// hands it over — the fixed wrapping context with the worker's words as
/// the root cause — reports through the typed channel, and its rendered
/// chain ends in the worker's own words, so the failure is never silent.
pub proof fn lemma_worker_failure_surfaces(e: CliError)
    requires
        e.kind == ErrorKind::Conversion,
        e.context@ == "The conversion failed"@,
        e.cause@.len() > 0,
    ensures
        spec_channel(RunOutcome::Error(e)) == Some(ReportChannel::TypedError),
        error_message(e.kind, e.context@, e.cause@) == "The conversion failed"@ + ": "@
            + e.cause@,
{
}

/// Defect containment: the two channels never both fire for one outcome.
/// The defect channel fires exactly on an unexpected fault, the typed
/// channel exactly on a typed error, and a clean run reports nothing.
pub proof fn lemma_one_channel(outcome: RunOutcome)
    ensures
        !(spec_channel(outcome) == Some(ReportChannel::TypedError) && spec_channel(outcome)
            == Some(ReportChannel::Defect)),
        (spec_channel(outcome) == Some(ReportChannel::Defect)) <==> (outcome is Panicked),
        (spec_channel(outcome) == Some(ReportChannel::TypedError)) <==> (outcome is Error),
        (spec_channel(outcome) is None) <==> (outcome is Success),
{
}

} // verus!
