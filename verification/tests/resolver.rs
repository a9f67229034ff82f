use cast2gif::errors::ErrorKind;
use cast2gif::format::{extension_of, resolve_format, OutputFormat};
use cast2gif::interval::parse_interval;
use cast2gif::plan::{check_overwrite, input_open_error, output_open_error, resolve_plan};

#[test]
fn format_png_inferred_from_extension() {
    let r = resolve_format(None, "out.png").unwrap();
    assert_eq!(r.format, OutputFormat::Png);
    assert!(!r.warned);
}

#[test]
fn format_explicit_flag_overrides_extension() {
    let r = resolve_format(Some("svg"), "out.cast").unwrap();
    assert_eq!(r.format, OutputFormat::Svg);
    assert!(!r.warned);
}

#[test]
fn format_unknown_extension_defaults_to_gif_with_warning() {
    let r = resolve_format(None, "out.unknown").unwrap();
    assert_eq!(r.format, OutputFormat::Gif);
    assert!(r.warned);
}

#[test]
fn format_extension_match_is_case_insensitive() {
    let r = resolve_format(None, "OUT.GIF").unwrap();
    assert_eq!(r.format, OutputFormat::Gif);
    assert!(!r.warned);
}

#[test]
fn format_no_extension_defaults_to_gif_with_warning() {
    let r = resolve_format(None, "plain").unwrap();
    assert_eq!(r.format, OutputFormat::Gif);
    assert!(r.warned);
}

#[test]
fn format_invalid_explicit_value_is_an_argument_error() {
    let e = resolve_format(Some("bmp"), "out.gif").unwrap_err();
    assert_eq!(e.kind, ErrorKind::Argument);
    assert_eq!(e.message(), "Invalid option to --format: bmp");
}

#[test]
fn extension_of_takes_last_dot_of_last_component() {
    assert_eq!(extension_of("a.tar.gz"), Some("gz"));
    assert_eq!(extension_of("dir.d/file"), None);
    assert_eq!(extension_of("dir/file.svg"), Some("svg"));
}

#[test]
fn extension_of_hidden_and_trailing_dot_files() {
    assert_eq!(extension_of(".bashrc"), None);
    assert_eq!(extension_of("dir/.hidden"), None);
    assert_eq!(extension_of("name."), Some(""));
    assert_eq!(extension_of(""), None);
}

#[test]
fn interval_accepts_a_tenth_exactly() {
    let iv = parse_interval("0.1").unwrap();
    assert_eq!(iv.mantissa, 1);
    assert_eq!(iv.scale, 1);
}

#[test]
fn interval_accepts_whole_and_fractional_forms() {
    let iv = parse_interval("2").unwrap();
    assert_eq!(iv.mantissa, 2);
    assert_eq!(iv.scale, 0);
    let iv = parse_interval("12.5").unwrap();
    assert_eq!(iv.mantissa, 125);
    assert_eq!(iv.scale, 1);
    let iv = parse_interval(".5").unwrap();
    assert_eq!(iv.mantissa, 5);
    assert_eq!(iv.scale, 1);
    let iv = parse_interval("3.").unwrap();
    assert_eq!(iv.mantissa, 3);
    assert_eq!(iv.scale, 0);
}

#[test]
fn interval_rejects_text_that_is_not_a_number() {
    let e = parse_interval("abc").unwrap_err();
    assert_eq!(e.kind, ErrorKind::Argument);
    assert_eq!(e.message(), "Could not parse frame interval: not a decimal number");
}

#[test]
fn interval_rejects_empty_and_dot_only_text() {
    assert_eq!(parse_interval("").unwrap_err().kind, ErrorKind::Argument);
    assert_eq!(parse_interval(".").unwrap_err().kind, ErrorKind::Argument);
}

#[test]
fn interval_rejects_two_dots_and_signs() {
    assert_eq!(parse_interval("1.2.3").unwrap_err().kind, ErrorKind::Argument);
    assert_eq!(parse_interval("-1").unwrap_err().kind, ErrorKind::Argument);
    assert_eq!(parse_interval("+1").unwrap_err().kind, ErrorKind::Argument);
}

#[test]
fn interval_rejects_zero() {
    let e = parse_interval("0.0").unwrap_err();
    assert_eq!(e.kind, ErrorKind::Argument);
    assert_eq!(e.message(), "Could not parse frame interval: interval must be positive");
}

#[test]
fn interval_mantissa_bound_is_exact() {
    let iv = parse_interval("18446744073709551615").unwrap();
    assert_eq!(iv.mantissa, u64::MAX);
    let e = parse_interval("18446744073709551616").unwrap_err();
    assert_eq!(e.message(), "Could not parse frame interval: interval value is too large");
}

#[test]
fn overwrite_guard_blocks_existing_output() {
    let e = check_overwrite("out.gif", true, false).unwrap_err();
    assert_eq!(e.kind, ErrorKind::Path);
    assert_eq!(e.message(), "Output file already exists: out.gif");
}

#[test]
fn overwrite_guard_yields_to_force() {
    assert!(check_overwrite("out.gif", true, true).is_ok());
    assert!(check_overwrite("out.gif", false, false).is_ok());
}

#[test]
fn open_error_messages_carry_path_and_cause() {
    let e = input_open_error("in.cast", "No such file".to_string());
    assert_eq!(e.kind, ErrorKind::Path);
    assert_eq!(e.message(), "Could not open cast file: in.cast: No such file");
    let e = output_open_error("out.gif", "Permission denied".to_string());
    assert_eq!(e.kind, ErrorKind::Path);
    assert_eq!(e.message(), "Could not open output file: out.gif: Permission denied");
}

#[test]
fn resolve_plan_builds_the_full_plan() {
    let res = resolve_plan("in.cast", "out.gif", None, false, "0.25", None, false).unwrap();
    assert_eq!(res.plan.cast_path, "in.cast");
    assert_eq!(res.plan.out_path, "out.gif");
    assert_eq!(res.plan.format, OutputFormat::Gif);
    assert_eq!(res.plan.interval.mantissa, 25);
    assert_eq!(res.plan.interval.scale, 2);
    assert!(!res.plan.overwrite_allowed);
    assert!(!res.warned);
}

#[test]
fn resolve_plan_reports_unreadable_input() {
    let e = resolve_plan(
        "in.cast",
        "out.gif",
        None,
        false,
        "0.1",
        Some("No such file".to_string()),
        false,
    )
    .unwrap_err();
    assert_eq!(e.kind, ErrorKind::Path);
    assert_eq!(e.message(), "Could not open cast file: in.cast: No such file");
}

#[test]
fn resolve_plan_checks_interval_before_input() {
    let e = resolve_plan(
        "in.cast",
        "out.gif",
        None,
        false,
        "abc",
        Some("No such file".to_string()),
        true,
    )
    .unwrap_err();
    assert_eq!(e.kind, ErrorKind::Argument);
}

#[test]
fn resolve_plan_applies_overwrite_guard() {
    let e = resolve_plan("in.cast", "out.gif", None, false, "0.1", None, true).unwrap_err();
    assert_eq!(e.kind, ErrorKind::Path);
    let res = resolve_plan("in.cast", "out.gif", None, true, "0.1", None, true).unwrap();
    assert!(res.plan.overwrite_allowed);
}
