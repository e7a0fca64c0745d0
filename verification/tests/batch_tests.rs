use bitburn::batch::BatchState;
use bitburn::errors::WipeError;
use bitburn::paths::validate_drive_path;

#[test]
fn empty_batch_reports_zero_files() {
    let state = BatchState::new();
    let outcome = state.outcome(false);
    assert!(outcome.success);
    assert_eq!(outcome.message, "Successfully wiped 0 files");
}

#[test]
fn clean_batch_reports_the_count() {
    let mut state = BatchState::new();
    state.record_wiped();
    state.record_wiped();
    state.record_wiped();
    let outcome = state.outcome(false);
    assert!(outcome.success);
    assert_eq!(outcome.message, "Successfully wiped 3 files");
}

#[test]
fn failures_are_aggregated_without_aborting_the_batch() {
    let mut state = BatchState::new();
    state.record_wiped();
    state.record_missing("C:/gone.txt");
    state.record_wipe_failure("C:/locked.txt", &WipeError::PermissionDenied);
    state.record_wiped();
    state.record_dir_failure("C:/dir", "directory busy");
    let outcome = state.outcome(false);
    assert!(!outcome.success);
    assert_eq!(
        outcome.message,
        "Wiped 2 files with 3 errors:\n\
         Path not found: C:/gone.txt\n\
         Failed to wipe C:/locked.txt: Access denied. The file might be in use or require administrator privileges.\n\
         Failed to remove directory C:/dir: directory busy"
    );
}

#[test]
fn cancellation_dominates_and_is_not_a_failure_list() {
    let mut state = BatchState::new();
    state.record_wiped();
    state.record_missing("C:/gone.txt");
    let outcome = state.outcome(true);
    assert!(!outcome.success);
    assert_eq!(outcome.message, "Operation cancelled by user");
}

#[test]
fn every_failure_carries_its_message() {
    assert_eq!(WipeError::PathNotFound.message(), "Path not found");
    assert_eq!(WipeError::InvalidPasses.message(), "Invalid number of passes");
    assert_eq!(
        WipeError::PermissionDenied.message(),
        "Access denied. The file might be in use or require administrator privileges."
    );
    assert_eq!(WipeError::UnsupportedTarget.message(), "Cannot wipe symbolic links");
    assert_eq!(WipeError::Cancelled.message(), "Operation cancelled by user");
    assert_eq!(WipeError::Io("bad sector".to_string()).message(), "IO error: bad sector");
    assert_eq!(WipeError::VolumeNotRoot.message(), "Selected path is not a drive root");
    assert_eq!(
        WipeError::DiskInfoUnavailable.message(),
        "Could not find disk information"
    );
}

#[test]
fn drive_path_validation_outcomes() {
    let ok = validate_drive_path("C:\\", true);
    assert!(ok.success);
    assert_eq!(ok.message, "Path validation successful");

    let missing = validate_drive_path("C:\\", false);
    assert!(!missing.success);
    assert_eq!(missing.message, "Path not found");

    let nested = validate_drive_path("C:\\Users\\data", true);
    assert!(!nested.success);
    assert_eq!(nested.message, "Selected path is not a drive root");
}
