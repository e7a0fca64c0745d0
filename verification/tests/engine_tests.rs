use bitburn::engine::{classify_open_error, precheck_target, WipeAction, WipeSession};
use bitburn::errors::WipeError;
use bitburn::plan::WipeAlgorithm;
use bitburn::progress::WipeProgress;

/// Drives a session against an in-memory stand-in for the target file.
struct SimRun {
    snapshots: Vec<WipeProgress>,
    cancelled: bool,
    file: Vec<u8>,
    file_exists: bool,
    writes: usize,
    syncs: usize,
    truncated: bool,
}

/// Runs a wipe to its end. `cancel_after_writes` raises the shared
/// cancellation flag once that many chunks have been written; `step_ms` is
/// how far the simulated clock advances between actions.
fn run_wipe(
    file_len: usize,
    algorithm: WipeAlgorithm,
    passes: u32,
    cancel_after_writes: Option<usize>,
    step_ms: u64,
) -> SimRun {
    let mut file = vec![0xAAu8; file_len];
    let mut file_exists = true;
    let mut pos = 0usize;
    let mut truncated = false;
    let mut now: u64 = 0;
    let mut session = WipeSession::start(file_len as u64, algorithm, passes, now)
        .expect("session should start");
    let mut snapshots = Vec::new();
    let mut writes = 0usize;
    let mut syncs = 0usize;
    loop {
        now += step_ms;
        let cancelled = cancel_after_writes.map_or(false, |n| writes >= n);
        match session.next_action(cancelled, now) {
            WipeAction::Emit(p) => snapshots.push(p),
            WipeAction::Seek => pos = 0,
            WipeAction::Write(buf) => {
                file[pos..pos + buf.len()].copy_from_slice(&buf);
                pos += buf.len();
                writes += 1;
            }
            WipeAction::Sync => syncs += 1,
            WipeAction::Truncate => {
                file.clear();
                truncated = true;
            }
            WipeAction::Remove => file_exists = false,
            WipeAction::Cancelled => {
                return SimRun { snapshots, cancelled: true, file, file_exists, writes, syncs, truncated }
            }
            WipeAction::Finished => {
                return SimRun { snapshots, cancelled: false, file, file_exists, writes, syncs, truncated }
            }
        }
    }
}

#[test]
fn test_nonexistent_file() {
    let result = precheck_target(false, false, 1);
    assert!(matches!(result, Err(WipeError::PathNotFound)));
}

#[test]
fn test_invalid_passes() {
    let result = precheck_target(true, false, 0);
    assert!(matches!(result, Err(WipeError::InvalidPasses)));
    assert!(matches!(
        WipeSession::start(1024, WipeAlgorithm::Random, 0, 0),
        Err(WipeError::InvalidPasses)
    ));
}

#[test]
fn symlinks_are_refused_unconditionally() {
    let result = precheck_target(true, true, 3);
    assert!(matches!(result, Err(WipeError::UnsupportedTarget)));
    // Never dereferenced: the verdict is the same when the link is dangling.
    let dangling = precheck_target(false, true, 3);
    assert!(matches!(dangling, Err(WipeError::UnsupportedTarget)));
    assert!(matches!(precheck_target(true, false, 3), Ok(())));
}

#[test]
fn open_errors_are_classified() {
    assert!(matches!(
        classify_open_error(true, "denied".to_string()),
        WipeError::PermissionDenied
    ));
    match classify_open_error(false, "device error".to_string()) {
        WipeError::Io(m) => assert_eq!(m, "device error"),
        other => panic!("expected a generic I/O failure, got {:?}", other),
    }
}

#[test]
fn test_nist_clear_wipe() {
    // 1 KiB file, one pass labeled "zeros", file removed, success.
    let run = run_wipe(1024, WipeAlgorithm::NistClear, 1, None, 20);
    assert!(!run.cancelled, "wipe should run to completion");
    assert!(!run.file_exists, "File should be deleted after wiping");
    assert!(run.truncated, "file must be truncated before removal");
    assert_eq!(run.writes, 1, "1 KiB is one chunk per pass");
    assert_eq!(run.syncs, 1);
    for p in &run.snapshots {
        assert!(
            p.current_pattern.contains("NIST 800-88 Clear"),
            "Progress pattern should mention NIST Clear: {}",
            p.current_pattern
        );
    }
    assert_eq!(run.snapshots[0].current_pattern, "NIST 800-88 Clear - Writing zeros");
    assert!(run
        .snapshots
        .last()
        .unwrap()
        .current_pattern
        .contains("Finalizing"));
}

#[test]
fn clear_pass_writes_zeros_over_the_content() {
    // Cancel right before truncation is impossible; instead check the data
    // just before cleanup by stopping after the last write: run without
    // cancellation but keep the final buffer aside.
    let mut final_data: Option<Vec<u8>> = None;
    let mut session = WipeSession::start(1024, WipeAlgorithm::NistClear, 1, 0).unwrap();
    loop {
        match session.next_action(false, 0) {
            WipeAction::Write(buf) => final_data = Some(buf),
            WipeAction::Finished => break,
            _ => {}
        }
    }
    assert_eq!(final_data.unwrap(), vec![0u8; 1024]);
}

#[test]
fn test_nist_purge_wipe() {
    let run = run_wipe(1024, WipeAlgorithm::NistPurge, 3, None, 20);
    assert!(!run.cancelled);
    assert!(!run.file_exists, "File should be deleted after wiping");
    assert_eq!(run.writes, 3);
    assert_eq!(run.syncs, 3);
    for p in &run.snapshots {
        assert!(
            p.current_pattern.contains("NIST 800-88 Purge"),
            "Progress pattern should mention NIST Purge: {}",
            p.current_pattern
        );
    }
    let patterns: Vec<&str> = run.snapshots.iter().map(|p| p.current_pattern.as_str()).collect();
    assert!(patterns.iter().any(|p| p.contains("Pass 1/3")), "Missing first pass");
    assert!(patterns.iter().any(|p| p.contains("Pass 2/3")), "Missing second pass");
    assert!(patterns.iter().any(|p| p.contains("Pass 3/3")), "Missing third pass");
}

#[test]
fn test_gutmann_wipe() {
    // 4 KiB file: exactly 35 distinct ordered pass labels, the first 4 and
    // last 4 random; file removed.
    let run = run_wipe(4096, WipeAlgorithm::Gutmann, 35, None, 0);
    assert!(!run.cancelled, "Wipe operation failed");
    assert!(!run.file_exists, "File should be deleted after wiping");
    assert_eq!(run.writes, 35);
    // Each pass announces its label at start and completion; collapse the
    // consecutive repeats to get the observed pass sequence.
    let mut pass_labels: Vec<String> = Vec::new();
    for p in run.snapshots.iter().filter(|p| !p.current_pattern.contains("Finalizing")) {
        if pass_labels.last() != Some(&p.current_pattern) {
            pass_labels.push(p.current_pattern.clone());
        }
    }
    assert_eq!(pass_labels.len(), 35, "Did not see all 35 passes");
    let mut distinct = pass_labels.clone();
    distinct.sort();
    distinct.dedup();
    assert_eq!(distinct.len(), 35, "pass labels must be distinct");
    for i in 0..4 {
        assert_eq!(
            pass_labels[i],
            format!("Random data (Pass {}/35)", i + 1),
            "Missing random pass {}",
            i + 1
        );
    }
    for i in 31..35 {
        assert_eq!(
            pass_labels[i],
            format!("Random data (Pass {}/35)", i + 1),
            "Missing random pass {}",
            i + 1
        );
    }
    assert_eq!(pass_labels[4], "Pattern 5/35: 0x55 0xAA", "Missing alternating pattern 0x55 0xAA");
    assert_eq!(pass_labels[6], "Pattern 7/35: 0x92 0x49 0x24", "Missing pattern 0x92 0x49 0x24");
    // Snapshot pass indices never decrease and never exceed the total.
    let mut last = 0u32;
    for p in &run.snapshots {
        assert!(p.current_pass >= last);
        assert!(p.current_pass <= p.total_passes);
        last = p.current_pass;
    }
}

#[test]
fn test_random_wipe() {
    let passes = 5u32;
    let run = run_wipe(1024, WipeAlgorithm::Random, passes, None, 0);
    assert!(!run.cancelled);
    assert!(!run.file_exists, "File should be deleted after wiping");
    let mut pass_labels: Vec<String> = Vec::new();
    for p in run.snapshots.iter().filter(|p| !p.current_pattern.contains("Finalizing")) {
        if pass_labels.last() != Some(&p.current_pattern) {
            pass_labels.push(p.current_pattern.clone());
        }
    }
    assert_eq!(pass_labels.len(), passes as usize, "Did not see all passes");
    for i in 1..=passes {
        let expected = format!("Writing random data (Pass {}/{})", i, passes);
        assert!(pass_labels.iter().any(|p| p == &expected), "Missing pass {}", i);
    }
}

#[test]
fn random_pass_chunks_have_the_right_length_and_content_varies() {
    let mut session = WipeSession::start(1024, WipeAlgorithm::Random, 2, 0).unwrap();
    let mut bufs: Vec<Vec<u8>> = Vec::new();
    loop {
        match session.next_action(false, 0) {
            WipeAction::Write(buf) => bufs.push(buf),
            WipeAction::Finished => break,
            _ => {}
        }
    }
    assert_eq!(bufs.len(), 2);
    assert_eq!(bufs[0].len(), 1024);
    assert_eq!(bufs[1].len(), 1024);
    // A kilobyte of generator output is never a single repeated byte.
    assert!(bufs[0].iter().any(|&b| b != bufs[0][0]), "random chunk must vary");
    assert_ne!(bufs[0], bufs[1], "two random passes must differ");
}

#[test]
fn chunking_clips_the_final_chunk() {
    // 1 MiB + 100 bytes: two writes per pass, the second clipped.
    let size = 1024 * 1024 + 100;
    let mut session = WipeSession::start(size as u64, WipeAlgorithm::NistClear, 1, 0).unwrap();
    let mut lens: Vec<usize> = Vec::new();
    loop {
        match session.next_action(false, 0) {
            WipeAction::Write(buf) => lens.push(buf.len()),
            WipeAction::Finished => break,
            _ => {}
        }
    }
    assert_eq!(lens, vec![1024 * 1024, 100]);
}

#[test]
fn zero_length_file_still_completes() {
    let run = run_wipe(0, WipeAlgorithm::NistPurge, 3, None, 20);
    assert!(!run.cancelled);
    assert!(!run.file_exists);
    assert_eq!(run.writes, 0);
    assert_eq!(run.syncs, 3);
}

#[test]
fn cancellation_mid_purge_halts_within_one_chunk() {
    // 3 MiB file, 3 chunks per pass; cancel once 4 chunks are written,
    // i.e. during pass 2 of 3.
    let size = 3 * 1024 * 1024;
    let run = run_wipe(size, WipeAlgorithm::NistPurge, 3, Some(4), 0);
    assert!(run.cancelled, "outcome must be cancelled, not failed");
    assert_eq!(run.writes, 4, "no further chunk may be written after the flag is seen");
    assert!(run.file_exists, "a cancelled wipe leaves the file undeleted");
    assert!(!run.truncated, "a cancelled wipe never truncates");
    assert_eq!(run.file.len(), size, "the partially overwritten file keeps its length");
}

#[test]
fn cancellation_before_first_chunk_writes_nothing() {
    let run = run_wipe(1024, WipeAlgorithm::NistClear, 1, Some(0), 20);
    assert!(run.cancelled);
    assert_eq!(run.writes, 0);
    assert!(run.file_exists);
    assert_eq!(run.file, vec![0xAAu8; 1024], "the content is untouched");
}

#[test]
fn throttle_suppresses_mid_pass_snapshots() {
    // With the clock advancing 1 ms per action, a 2-chunk pass emits no
    // mid-pass snapshot: pass start, pass completion and finalize remain.
    let size = 2 * 1024 * 1024;
    let run = run_wipe(size, WipeAlgorithm::NistClear, 1, None, 1);
    assert_eq!(run.snapshots.len(), 3);
    // With 20 ms between actions every chunk is followed by a snapshot.
    let run = run_wipe(size, WipeAlgorithm::NistClear, 1, None, 20);
    assert_eq!(run.snapshots.len(), 1 + 2 + 1 + 1);
    let mid = &run.snapshots[1];
    assert_eq!(mid.bytes_processed, 1024 * 1024);
    assert_eq!(mid.percentage, 50);
    let done = &run.snapshots[3];
    assert_eq!(done.bytes_processed, size as u64);
    assert_eq!(done.percentage, 100);
}
