use archivindex::publication::{
    check_destination, first_step, is_distinct_sibling, looks_up_destination, next_step, parent,
    DestinationError, Lookup, Policy, Stage, Step,
};

#[test]
fn only_a_new_file_looks_its_destination_up() {
    assert!(looks_up_destination(Policy::CreateNew));
    assert!(!looks_up_destination(Policy::Replace));
}

#[test]
fn an_occupied_destination_refuses_a_new_file() {
    assert_eq!(
        check_destination(Policy::CreateNew, Some(Lookup::Present)),
        Err(DestinationError::AlreadyExists)
    );
    assert_eq!(check_destination(Policy::CreateNew, Some(Lookup::Missing)), Ok(()));
    assert_eq!(
        check_destination(Policy::CreateNew, Some(Lookup::Failed)),
        Err(DestinationError::LookupFailed)
    );
    assert_eq!(check_destination(Policy::Replace, None), Ok(()));
}

#[test]
fn a_path_is_published_in_its_parent_directory() {
    assert_eq!(parent("/data/out/result"), "/data/out");
    assert_eq!(parent("result"), "");
    assert_eq!(parent("/"), ".");
    assert_eq!(parent(""), ".");
}

#[test]
fn a_partial_file_must_be_a_distinct_sibling() {
    assert!(is_distinct_sibling("/data/result", "/data/result.partial"));
    assert!(!is_distinct_sibling("/data/result", "/data/result"));
    assert!(!is_distinct_sibling("/data/result", "/data//result"));
    assert!(!is_distinct_sibling("/data/result", "/other/result.partial"));
    assert!(!is_distinct_sibling("/data/result", "/data/sub/result.partial"));
}

#[test]
fn publishing_runs_its_stages_in_order() {
    let mut step = first_step();
    let mut stages = Vec::new();
    while let Step::Run(stage) = step {
        stages.push(stage);
        step = next_step(stage, true).expect("every stage succeeds");
    }

    assert_eq!(stages, [Stage::FileSync, Stage::Persist, Stage::DirectorySync]);
    assert_eq!(next_step(Stage::Persist, false), Err(Stage::Persist));
}

#[test]
fn only_a_directory_sync_failure_leaves_the_output_published() {
    assert!(!Stage::FileSync.is_published());
    assert!(!Stage::Persist.is_published());
    assert!(Stage::DirectorySync.is_published());
}

#[test]
fn each_stage_describes_its_failure() {
    assert_eq!(Stage::FileSync.message("/o"), "cannot sync pending output for /o");
    assert_eq!(Stage::Persist.message("/o"), "cannot publish /o");
    assert_eq!(
        Stage::DirectorySync.message("/o"),
        "published /o, but could not sync its directory"
    );
}
