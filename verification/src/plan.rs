//! Output-target resolution: from raw command-line values to a validated
//! execution plan.
//!
//! Every failure here is synchronous and happens before any background
//! work starts; no partial plan is ever handed to the orchestrator. The
//! caller performs the actual file opening and reports what it saw as
//! plain values; every decision about those values is made here.

use vstd::prelude::*;
use vstd::string::StringExecFns;
use crate::errors::{CliError, ErrorKind};
use crate::format::{resolve_format, format_from_name, inferred_format, OutputFormat};
use crate::interval::{parse_interval, interval_ok, mantissa_of, scale_of, Interval};

verus! {

/// The fully validated, immutable description of one run.
#[derive(Debug)]
pub struct ExecutionPlan {
    pub cast_path: String,
    pub out_path: String,
    pub format: OutputFormat,
    pub interval: Interval,
    pub overwrite_allowed: bool,
}

/// A resolved plan, together with whether the format choice fell back to
/// the default and so owes the user a warning.
#[derive(Debug)]
pub struct PlanResolution {
    pub plan: ExecutionPlan,
    pub warned: bool,
}

/// The overwrite guard: an existing output path is refused unless
/// overwriting was explicitly allowed.
pub fn check_overwrite(out_path: &str, out_exists: bool, force: bool) -> (r: Result<
    (),
    CliError,
>)
    ensures
        match r {
            Ok(_) => !out_exists || force,
            Err(e) => {
                &&& out_exists
                &&& !force
                &&& e.kind == ErrorKind::Path
                &&& e.context@ == "Output file already exists"@
                &&& e.cause@ == out_path@
            },
        },
{
    if out_exists && !force {
        Err(
            CliError::new(
                ErrorKind::Path,
                String::from_str("Output file already exists"),
                String::from_str(out_path),
            ),
        )
    } else {
        Ok(())
    }
}

/// The error reported when the recording cannot be opened for reading.
pub fn input_open_error(cast_path: &str, cause: String) -> (r: CliError)
    ensures
        r.kind == ErrorKind::Path,
        r.context@ == "Could not open cast file: "@ + cast_path@,
        r.cause == cause,
{
    let mut context = String::from_str("Could not open cast file: ");
    context.append(cast_path);
    CliError::new(ErrorKind::Path, context, cause)
}

/// The error reported when the output file cannot be created or truncated.
pub fn output_open_error(out_path: &str, cause: String) -> (r: CliError)
    ensures
        r.kind == ErrorKind::Path,
        r.context@ == "Could not open output file: "@ + out_path@,
        r.cause == cause,
{
    let mut context = String::from_str("Could not open output file: ");
    context.append(out_path);
    CliError::new(ErrorKind::Path, context, cause)
}

/// Resolve one whole run. The checks run in a fixed order — frame
/// interval, readable input, overwrite guard, output format — and the
/// first failure wins; success yields the plan, pinned field by field.
/// `input_fault` carries the system's words when the recording could not
/// be opened, `None` when it could.
pub fn resolve_plan(
    cast_path: &str,
    out_path: &str,
    format_flag: Option<&str>,
    force: bool,
    interval_text: &str,
    input_fault: Option<String>,
    out_exists: bool,
) -> (r: Result<PlanResolution, CliError>)
    ensures
        !interval_ok(interval_text@) ==> (r matches Err(e) && e.kind == ErrorKind::Argument
            && e.context@ == "Could not parse frame interval"@),
        interval_ok(interval_text@) ==> match input_fault {
            Some(cause) => (r matches Err(e) && e.kind == ErrorKind::Path && e.context@
                == "Could not open cast file: "@ + cast_path@ && e.cause@ == cause@),
            None => {
                if out_exists && !force {
                    r matches Err(e) && e.kind == ErrorKind::Path && e.context@
                        == "Output file already exists"@ && e.cause@ == out_path@
                } else {
                    match format_flag {
                        Some(name) => match format_from_name(name@) {
                            Some(f) => (r matches Ok(res) && res.plan.format == f
                                && !res.warned),
                            None => (r matches Err(e) && e.kind == ErrorKind::Argument
                                && e.context@ == "Invalid option to --format"@ && e.cause@
                                == name@),
                        },
                        None => match inferred_format(out_path@) {
                            Some(f) => (r matches Ok(res) && res.plan.format == f
                                && !res.warned),
                            None => (r matches Ok(res) && res.plan.format
                                == OutputFormat::Gif && res.warned),
                        },
                    }
                }
            },
        },
        r matches Ok(res) ==> {
            &&& res.plan.cast_path@ == cast_path@
            &&& res.plan.out_path@ == out_path@
            &&& res.plan.overwrite_allowed == force
            &&& res.plan.interval.mantissa == mantissa_of(interval_text@)
            &&& res.plan.interval.scale == scale_of(interval_text@)
            &&& res.plan.interval.mantissa >= 1
        },
{
    let interval = match parse_interval(interval_text) {
        Ok(iv) => iv,
        Err(e) => {
            return Err(e);
        },
    };
    match input_fault {
        Some(cause) => {
            return Err(input_open_error(cast_path, cause));
        },
        None => {},
    }
    match check_overwrite(out_path, out_exists, force) {
        Ok(_) => {},
        Err(e) => {
            return Err(e);
        },
    }
    let choice = match resolve_format(format_flag, out_path) {
        Ok(c) => c,
        Err(e) => {
            return Err(e);
        },
    };
    Ok(
        PlanResolution {
            plan: ExecutionPlan {
                cast_path: String::from_str(cast_path),
                out_path: String::from_str(out_path),
                format: choice.format,
                interval,
                overwrite_allowed: force,
            },
            warned: choice.warned,
        },
    )
}

} // verus!
