use archivindex::cli::{plural, CommandOutcome, ConfigFormat, LevelFilter, Verbosity};

/// The verbosity that `--quiet` and `verbose` repetitions of `-v` select.
fn verbosity(quiet: bool, verbose: u8) -> Verbosity {
    Verbosity::new(quiet, verbose).expect("valid options")
}

#[test]
fn selects_the_documented_levels() {
    assert_eq!(verbosity(false, 0).level(), LevelFilter::Warn);
    assert_eq!(verbosity(true, 0).level(), LevelFilter::Error);
    assert_eq!(verbosity(false, 1).level(), LevelFilter::Info);
    assert_eq!(verbosity(false, 2).level(), LevelFilter::Debug);
    assert_eq!(verbosity(false, 3).level(), LevelFilter::Trace);
    assert_eq!(verbosity(false, 4).level(), LevelFilter::Trace);
}

#[test]
fn reports_quiet_and_verbose_separately() {
    assert!(verbosity(true, 0).is_quiet());
    assert!(!verbosity(true, 0).is_verbose());
    assert!(!verbosity(false, 0).is_quiet());
    assert!(!verbosity(false, 0).is_verbose());
    assert!(verbosity(false, 1).is_verbose());
}

/// The two options describe opposite intents, so asking for both is an error.
#[test]
fn quiet_and_verbose_conflict() {
    assert!(Verbosity::new(true, 1).is_none());
    assert!(Verbosity::new(true, 255).is_none());
}

#[test]
fn plural_agrees_with_its_count() {
    assert_eq!(plural(0, "record"), "0 records");
    assert_eq!(plural(1, "record"), "1 record");
    assert_eq!(plural(2, "byte"), "2 bytes");
}

#[test]
fn plural_writes_large_counts_in_full() {
    assert_eq!(plural(1234567, "file"), "1234567 files");
    assert_eq!(plural(u64::MAX, "bit"), "18446744073709551615 bits");
}

#[test]
fn reported_problems_select_the_outcome() {
    assert_eq!(
        CommandOutcome::from_reported_problems(false),
        CommandOutcome::Success
    );
    assert_eq!(
        CommandOutcome::from_reported_problems(true),
        CommandOutcome::ReportedProblems
    );
}

#[test]
fn outcomes_have_the_documented_exit_codes() {
    assert_eq!(CommandOutcome::Success.code(), 0);
    assert_eq!(CommandOutcome::ReportedProblems.code(), 1);
    assert_eq!(CommandOutcome::OperationalError.code(), 2);
}

#[test]
fn a_configuration_file_is_recognized_by_its_extension() {
    assert_eq!(ConfigFormat::of("capture.toml"), Some(ConfigFormat::Toml));
    assert_eq!(ConfigFormat::of("capture.JSON"), Some(ConfigFormat::Json));
    assert_eq!(ConfigFormat::of("capture.yaml"), None);
    assert_eq!(ConfigFormat::of("capture"), None);
}

#[test]
fn only_the_final_component_names_the_format() {
    assert_eq!(ConfigFormat::of("configs.toml/capture"), None);
    assert_eq!(ConfigFormat::of("dir/capture.Toml"), Some(ConfigFormat::Toml));
    assert_eq!(ConfigFormat::of(".toml"), None);
}

#[test]
fn a_verbosity_keeps_its_flags() {
    let chatty = verbosity(false, 5);
    assert_eq!(chatty.verbose_count(), 5);
    assert!(!chatty.is_quiet());
    assert_eq!(verbosity(true, 0).verbose_count(), 0);
}
