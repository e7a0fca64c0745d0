use bitburn::engine::{WipeAction, WipeSession};
use bitburn::errors::WipeError;
use bitburn::fill::{
    cancelled_outcome, create_temp_failure, fill_write_failure, free_space_outcome, is_exhaustion,
    stale_temp_failure, temp_file_name, FillSession, FillWriteFailure, FreeSpaceWipeEnd,
};
use bitburn::plan::WipeAlgorithm;

const MIB: u64 = 1024 * 1024;

fn started(avail: u64) -> FillSession {
    let (session, first) =
        FillSession::begin("C:\\", true, WipeAlgorithm::Random, 2, Some(avail), 0)
            .expect("a drive root with known capacity starts a fill");
    assert_eq!(first.current_pattern, "Filling drive space");
    assert_eq!(first.estimated_total_bytes, Some(avail));
    assert_eq!(first.current_algorithm, "Random");
    assert_eq!(first.percentage, 0);
    session
}

#[test]
fn non_root_path_is_rejected_before_any_mutation() {
    let r = FillSession::begin(
        "C:\\Users\\data",
        true,
        WipeAlgorithm::NistClear,
        1,
        Some(MIB),
        0,
    );
    assert!(matches!(r, Err(WipeError::VolumeNotRoot)));
    let r = FillSession::begin("C:", true, WipeAlgorithm::NistClear, 1, Some(MIB), 0);
    assert!(matches!(r, Err(WipeError::VolumeNotRoot)));
}

#[test]
fn missing_volume_and_missing_capacity_are_distinct_failures() {
    let r = FillSession::begin("C:\\", false, WipeAlgorithm::NistClear, 1, Some(MIB), 0);
    assert!(matches!(r, Err(WipeError::PathNotFound)));
    let r = FillSession::begin("C:\\", true, WipeAlgorithm::NistClear, 1, None, 0);
    assert!(matches!(r, Err(WipeError::DiskInfoUnavailable)));
}

#[test]
fn temp_file_has_the_expected_name() {
    assert_eq!(temp_file_name(), ".temp_wipe_file");
}

#[test]
fn capacity_requeries_are_throttled_to_100ms() {
    let session = started(10 * MIB);
    assert!(!session.should_refresh(0));
    assert!(!session.should_refresh(99));
    assert!(session.should_refresh(100));
    assert!(session.should_refresh(250));
}

#[test]
fn refresh_tracks_space_consumed_and_degrades_gracefully() {
    let mut session = started(10 * MIB);
    session.record_refresh(Some(7 * MIB), 150);
    assert_eq!(session.last_space_used, 3 * MIB);
    assert!(!session.should_refresh(200));
    // A failed probe keeps the last known figure.
    session.record_refresh(None, 300);
    assert_eq!(session.last_space_used, 3 * MIB);
    // A reading above the starting capacity counts as nothing consumed.
    session.record_refresh(Some(11 * MIB), 450);
    assert_eq!(session.last_space_used, 0);
}

#[test]
fn fill_writes_report_megabytes_and_sync_every_ten_chunks() {
    let mut session = started(100 * MIB);
    session.record_refresh(Some(98 * MIB), 150);
    for i in 1..=10u64 {
        let (snapshot, sync_due) = session.record_write_ok();
        assert_eq!(session.total_written, i * MIB);
        assert_eq!(
            snapshot.current_pattern,
            format!("Filling drive space ({} MB written)", i)
        );
        assert_eq!(snapshot.bytes_processed, 2 * MIB);
        assert_eq!(snapshot.percentage, 2);
        assert_eq!(sync_due, i == 10, "a sync is due exactly every tenth chunk");
    }
}

#[test]
fn fill_chunks_are_a_full_mebibyte_of_varied_data() {
    let session = started(10 * MIB);
    let chunk = session.next_chunk();
    assert_eq!(chunk.len(), MIB as usize);
    assert!(chunk.iter().any(|&b| b != chunk[0]), "random chunk must vary");
}

#[test]
fn exhaustion_kinds_end_the_fill_and_others_abort_it() {
    assert!(is_exhaustion(FillWriteFailure::StorageFull));
    assert!(is_exhaustion(FillWriteFailure::OutOfMemory));
    assert!(is_exhaustion(FillWriteFailure::WriteZero));
    assert!(!is_exhaustion(FillWriteFailure::Other));
}

#[test]
fn finishing_the_fill_reports_the_filled_volume() {
    let mut session = started(10 * MIB);
    let (_, _) = session.record_write_ok();
    let snapshot = session.finish_fill(Some(1 * MIB)).expect("a reading yields a snapshot");
    assert_eq!(snapshot.current_pattern, "Drive space filled");
    assert_eq!(snapshot.bytes_processed, 9 * MIB);
    assert_eq!(session.total_written, MIB);
    // Without a final reading nothing more is emitted.
    let mut session = started(10 * MIB);
    assert!(session.finish_fill(None).is_none());
}

#[test]
fn cleanup_of_a_stale_temp_file_is_announced() {
    let mut session = started(10 * MIB);
    let snapshot = session.cleanup_notice();
    assert_eq!(snapshot.current_pattern, "Cleaning up previous temporary file");
    assert_eq!(snapshot.bytes_processed, 0);
}

#[test]
fn fill_failure_outcomes_carry_the_description() {
    let r = stale_temp_failure("locked");
    assert!(!r.success);
    assert_eq!(r.message, "Failed to remove existing temporary file: locked");
    let r = create_temp_failure("read-only volume");
    assert!(!r.success);
    assert_eq!(r.message, "Failed to create temporary file: read-only volume");
    let r = fill_write_failure("device reset");
    assert!(!r.success);
    assert_eq!(r.message, "Failed to write to temporary file: device reset");
    let r = cancelled_outcome();
    assert!(!r.success);
    assert_eq!(r.message, "Operation cancelled by user");
}

#[test]
fn free_space_wipe_fills_the_volume_then_wipes_the_temp_file() {
    // A simulated volume with room for three fill chunks: the fourth write
    // fails with storage exhaustion, which ends the fill successfully; the
    // temp file is then handed to the engine with the ground-truth byte
    // count and wiped to removal.
    let capacity = 3 * MIB;
    let (mut session, first) =
        FillSession::begin("C:\\", true, WipeAlgorithm::NistClear, 1, Some(capacity), 0)
            .expect("fill should start");
    assert_eq!(first.current_pattern, "Filling drive space");

    let mut temp: Vec<u8> = Vec::new();
    let mut now: u64 = 0;
    loop {
        now += 40;
        if session.should_refresh(now) {
            session.record_refresh(Some(capacity - temp.len() as u64), now);
        }
        let chunk = session.next_chunk();
        if temp.len() as u64 + chunk.len() as u64 > capacity {
            // The platform reports a full device; the fill ends here.
            if let Some(snapshot) = session.finish_fill(Some(0)) {
                assert_eq!(snapshot.current_pattern, "Drive space filled");
            }
            break;
        }
        temp.extend_from_slice(&chunk);
        let (snapshot, _sync_due) = session.record_write_ok();
        assert_eq!(snapshot.total_bytes, 0);
    }
    assert_eq!(session.total_written, capacity);
    assert_eq!(temp.len() as u64, capacity);

    // Overwrite phase: the engine sweeps exactly the bytes written.
    let mut wipe = WipeSession::start(session.total_written, WipeAlgorithm::NistClear, 1, 0)
        .expect("wipe should start");
    let mut pos = 0usize;
    let mut exists = true;
    loop {
        match wipe.next_action(false, 0) {
            WipeAction::Emit(_) => {}
            WipeAction::Seek => pos = 0,
            WipeAction::Write(buf) => {
                temp[pos..pos + buf.len()].copy_from_slice(&buf);
                pos += buf.len();
            }
            WipeAction::Sync => {}
            WipeAction::Truncate => temp.clear(),
            WipeAction::Remove => exists = false,
            WipeAction::Cancelled => panic!("nothing cancels this run"),
            WipeAction::Finished => break,
        }
    }
    assert!(!exists, "the temp file is removed at the end");
    let outcome = free_space_outcome(FreeSpaceWipeEnd::Completed);
    assert!(outcome.success);
}

#[test]
fn free_space_outcomes_for_each_ending() {
    let r = free_space_outcome(FreeSpaceWipeEnd::Completed);
    assert!(r.success);
    assert_eq!(r.message, "Successfully wiped free space");
    let r = free_space_outcome(FreeSpaceWipeEnd::Cancelled);
    assert!(!r.success);
    assert_eq!(r.message, "Operation cancelled by user");
    let r = free_space_outcome(FreeSpaceWipeEnd::Failed(WipeError::InvalidPasses));
    assert!(!r.success);
    assert_eq!(r.message, "Failed to wipe free space: Invalid number of passes");
    let r = free_space_outcome(FreeSpaceWipeEnd::Failed(WipeError::Io("short write".to_string())));
    assert!(!r.success);
    assert_eq!(r.message, "Failed to wipe free space: IO error: short write");
}
