use cast2gif::errors::{CliError, ErrorKind};
use cast2gif::format::OutputFormat;
use cast2gif::orchestrator::{preflight_format, RunPhase, RunTracker};
use cast2gif::progress::{DisplayState, DualProgress, ProgressSnapshot};
use cast2gif::report::{outcome_report, ReportChannel, RunOutcome};

fn fresh_display() -> DualProgress {
    DualProgress::new("Rasterizing".to_string(), "Sequencing".to_string())
}

#[test]
fn display_starts_waiting_at_zero() {
    let d = fresh_display();
    assert_eq!(d.raster.state, DisplayState::Waiting);
    assert_eq!(d.sequence.state, DisplayState::Waiting);
    assert_eq!(d.raster.position, 0);
    assert_eq!(d.raster.capacity, 0);
    assert!(!d.is_complete());
    assert_eq!(d.raster.prefix(), "Waiting");
}

#[test]
fn display_follows_a_run_to_completion() {
    let mut d = fresh_display();
    assert!(d.accept(ProgressSnapshot::new(0, 0, 10)));
    assert_eq!(d.raster.capacity, 10);
    assert_eq!(d.raster.state, DisplayState::Waiting);

    assert!(d.accept(ProgressSnapshot::new(3, 0, 10)));
    assert_eq!(d.raster.state, DisplayState::Active);
    assert_eq!(d.raster.position, 3);
    assert_eq!(d.raster.prefix(), "Rasterizing");
    assert_eq!(d.sequence.state, DisplayState::Waiting);

    assert!(d.accept(ProgressSnapshot::new(10, 4, 10)));
    assert_eq!(d.raster.state, DisplayState::Done);
    assert_eq!(d.raster.prefix(), "Done");
    assert_eq!(d.sequence.state, DisplayState::Active);
    assert_eq!(d.sequence.prefix(), "Sequencing");
    assert!(!d.is_complete());

    assert!(d.accept(ProgressSnapshot::new(10, 10, 10)));
    assert_eq!(d.raster.state, DisplayState::Done);
    assert_eq!(d.sequence.state, DisplayState::Done);
    assert!(d.is_complete());
}

#[test]
fn display_supports_late_discovery_of_total() {
    let mut d = fresh_display();
    assert!(d.accept(ProgressSnapshot::new(0, 0, 0)));
    assert_eq!(d.raster.capacity, 0);
    assert!(d.accept(ProgressSnapshot::new(2, 0, 8)));
    assert_eq!(d.raster.capacity, 8);
    assert_eq!(d.raster.state, DisplayState::Active);
}

#[test]
fn display_rejects_a_backwards_step() {
    let mut d = fresh_display();
    assert!(d.accept(ProgressSnapshot::new(5, 5, 10)));
    assert!(!d.accept(ProgressSnapshot::new(4, 5, 10)));
    assert_eq!(d.raster.position, 5);
    assert_eq!(d.raster.state, DisplayState::Active);
}

#[test]
fn display_rejects_a_count_beyond_the_total() {
    let mut d = fresh_display();
    assert!(!d.accept(ProgressSnapshot::new(11, 0, 10)));
    assert_eq!(d.raster.position, 0);
}

#[test]
fn display_rejects_a_changed_positive_total() {
    let mut d = fresh_display();
    assert!(d.accept(ProgressSnapshot::new(5, 5, 10)));
    assert!(!d.accept(ProgressSnapshot::new(6, 6, 12)));
    assert_eq!(d.raster.capacity, 10);
}

#[test]
fn display_never_leaves_done_within_a_run() {
    let mut d = fresh_display();
    assert!(d.accept(ProgressSnapshot::new(10, 2, 10)));
    assert_eq!(d.raster.state, DisplayState::Done);
    assert!(d.accept(ProgressSnapshot::new(10, 5, 10)));
    assert_eq!(d.raster.state, DisplayState::Done);
    assert!(d.accept(ProgressSnapshot::new(10, 10, 10)));
    assert_eq!(d.raster.state, DisplayState::Done);
    assert!(d.is_complete());
}

#[test]
fn preflight_accepts_only_implemented_formats() {
    assert!(preflight_format(OutputFormat::Gif).is_ok());
    let e = preflight_format(OutputFormat::Png).unwrap_err();
    assert_eq!(e.kind, ErrorKind::NotImplemented);
    let e = preflight_format(OutputFormat::Svg).unwrap_err();
    assert_eq!(e.kind, ErrorKind::NotImplemented);
}

#[test]
fn tracker_walks_a_successful_run() {
    let mut t = RunTracker::new();
    assert_eq!(t.phase, RunPhase::Init);
    t.plan_resolved();
    assert_eq!(t.phase, RunPhase::PlanResolved);
    t.conversion_started();
    assert_eq!(t.phase, RunPhase::Converting);
    assert!(t.complete(Ok(())).is_ok());
    assert_eq!(t.phase, RunPhase::Succeeded);
}

#[test]
fn tracker_propagates_a_worker_failure() {
    let mut t = RunTracker::new();
    t.plan_resolved();
    t.conversion_started();
    let e = t.complete(Err("ran out of frames".to_string())).unwrap_err();
    assert_eq!(t.phase, RunPhase::Failed);
    assert_eq!(e.kind, ErrorKind::Conversion);
    assert_eq!(e.message(), "The conversion failed: ran out of frames");
}

#[test]
fn report_is_silent_on_success() {
    assert!(outcome_report(RunOutcome::Success).is_none());
}

#[test]
fn report_carries_a_typed_error_chain_and_exit_one() {
    let e = CliError::new(
        ErrorKind::Conversion,
        "The conversion failed".to_string(),
        "ran out of frames".to_string(),
    );
    let rep = outcome_report(RunOutcome::Error(e)).unwrap();
    assert_eq!(rep.channel, ReportChannel::TypedError);
    assert_eq!(rep.exit_code, 1);
    assert_eq!(rep.message, "The conversion failed: ran out of frames");
}

#[test]
fn report_turns_a_panic_into_one_generic_bug_report() {
    let rep = outcome_report(RunOutcome::Panicked).unwrap();
    assert_eq!(rep.channel, ReportChannel::Defect);
    assert_eq!(rep.exit_code, 1);
    assert!(rep.message.contains("This is a bug"));
    assert!(rep.message.contains("issue tracker"));
}
