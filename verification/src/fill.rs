//! The free-space filler: decisions for growing a throwaway temp file until
//! the volume is exhausted, before handing it to the overwrite engine.
//!
//! As with the engine, no file I/O happens here. The caller creates and
//! writes the temp file and queries the volume's capacity; this module
//! decides what each observation means — when to re-query capacity, when to
//! sync, which write failures mean "the volume is full" (the successful end
//! of the fill) and which abort it — and builds every outcome message.

use vstd::prelude::*;
use vstd::string::StringExecFns;

use crate::engine::CHUNK_SIZE;
use crate::errors::WipeError;
use crate::errors::WipeResult;
use crate::errors::wipe_error_message;
use crate::paths::is_drive_root;
use crate::plan::WipeAlgorithm;
use crate::plan::algorithm_label;
use crate::plan::algorithm_label_str;
use crate::progress::WipeProgress;
use crate::progress::percentage_of;
use crate::rng::random_bytes;
use crate::text::dec_str;
use crate::text::u64_to_dec;

verus! {

/// Minimum wall-clock milliseconds between two capacity re-queries.
pub const REFRESH_INTERVAL_MS: u64 = 100;

/// A durability sync is requested after every this many filled chunks.
pub const SYNC_EVERY_CHUNKS: u64 = 10;

/// The name of the throwaway fill file, chosen to be unlikely to collide
/// with user data; a stale one left by a crashed run is removed first.
pub fn temp_file_name() -> (s: &'static str)
    ensures
        s@ == ".temp_wipe_file"@,
{
    ".temp_wipe_file"
}

/// How a write to the temp file failed, as classified by the caller from
/// the platform error.
#[derive(Debug, Clone, Copy, PartialEq, Eq, Structural)]
pub enum FillWriteFailure {
    /// The device is full.
    StorageFull,
    /// The platform reported memory exhaustion for the write.
    OutOfMemory,
    /// A write made no progress (a short write at the end of the volume).
    WriteZero,
    /// Any other failure.
    Other,
}

/// Whether a write failure means the volume is exhausted: the expected,
/// successful termination of the fill loop rather than an error.
pub fn is_exhaustion(kind: FillWriteFailure) -> (r: bool)
    ensures
        r == (kind == FillWriteFailure::StorageFull || kind == FillWriteFailure::OutOfMemory
            || kind == FillWriteFailure::WriteZero),
{
    match kind {
        FillWriteFailure::StorageFull => true,
        FillWriteFailure::OutOfMemory => true,
        FillWriteFailure::WriteZero => true,
        FillWriteFailure::Other => false,
    }
}

/// Space consumed on the volume since the fill began, from a fresh
/// capacity reading; a reading above the starting capacity counts as zero.
pub open spec fn spec_space_used(initial: u64, current: u64) -> u64 {
    if current <= initial {
        (initial - current) as u64
    } else {
        0
    }
}

/// Whether a capacity re-query is due.
pub open spec fn refresh_due(last_refresh_ms: u64, now_ms: u64) -> bool {
    now_ms >= last_refresh_ms && now_ms - last_refresh_ms >= REFRESH_INTERVAL_MS
}

/// The label reported while filling, carrying the megabytes written so far.
pub open spec fn fill_progress_label(total_written: int) -> Seq<char> {
    "Filling drive space ("@ + dec_str(total_written / ((1024 * 1024) as int)) + " MB written)"@
}

/// One free-space fill in progress.
pub struct FillSession {
    /// The progress record mutated in place; snapshots of it are emitted.
    pub progress: WipeProgress,
    /// The volume's available bytes when the fill began: the advisory scale
    /// estimate for percentages.
    pub initial_avail: u64,
    /// Ground truth: bytes actually written to the temp file.
    pub total_written: u64,
    /// When capacity was last queried.
    pub last_refresh_ms: u64,
    /// Approximate space consumed, from the last capacity reading; tracked
    /// separately from `total_written` (filesystem overhead makes the two
    /// diverge).
    pub last_space_used: u64,
}

impl FillSession {
    /// Well-formedness of a fill in progress.
    pub open spec fn wf(self) -> bool {
        &&& self.progress.estimated_total_bytes == Some(self.initial_avail)
        &&& self.progress.total_bytes == 0
        &&& self.last_space_used <= self.initial_avail
        &&& self.progress.percentage == percentage_of(
            self.progress.bytes_processed,
            self.progress.total_bytes,
            self.progress.estimated_total_bytes,
        )
    }

    /// Begins a free-space fill of the volume rooted at `path`. The caller
    /// reports whether the path exists and the volume's available bytes (if
    /// it could be determined); validation happens here, before any
    /// filesystem mutation: a non-root path is rejected with `VolumeNotRoot`
    /// without a temp file ever being asked for. On success, the returned
    /// snapshot is the first to emit.
    pub fn begin(
        path: &str,
        exists: bool,
        algorithm: WipeAlgorithm,
        passes: u32,
        available: Option<u64>,
        now_ms: u64,
    ) -> (r: Result<(FillSession, WipeProgress), WipeError>)
        ensures
            !exists ==> r == Err::<(FillSession, WipeProgress), WipeError>(WipeError::PathNotFound),
            exists && !is_drive_root(path@) ==> r == Err::<(FillSession, WipeProgress), WipeError>(
                WipeError::VolumeNotRoot,
            ),
            exists && is_drive_root(path@) && available is None ==> r == Err::<
                (FillSession, WipeProgress),
                WipeError,
            >(WipeError::DiskInfoUnavailable),
            exists && is_drive_root(path@) ==> (available matches Some(av) ==> r matches Ok(pair)
                && {
                &&& pair.0.wf()
                &&& pair.1 == pair.0.progress
                &&& pair.0.initial_avail == av
                &&& pair.0.total_written == 0
                &&& pair.0.last_refresh_ms == now_ms
                &&& pair.0.last_space_used == 0
                &&& pair.0.progress.current_pass == 1
                &&& pair.0.progress.total_passes == passes
                &&& pair.0.progress.bytes_processed == 0
                &&& pair.0.progress.current_algorithm@ == algorithm_label(algorithm)
                &&& pair.0.progress.current_pattern@ == "Filling drive space"@
            }),
    {
        if !exists {
            return Err(WipeError::PathNotFound);
        }
        if crate::text::count_char(path, '\\') != 1 {
            return Err(WipeError::VolumeNotRoot);
        }
        let av = match available {
            Some(av) => av,
            None => {
                return Err(WipeError::DiskInfoUnavailable);
            },
        };
        let mut progress = WipeProgress::new(passes, 0, algorithm_label_str(algorithm));
        progress.estimated_total_bytes = Some(av);
        progress.update(0, "Filling drive space");
        let session = FillSession {
            progress,
            initial_avail: av,
            total_written: 0,
            last_refresh_ms: now_ms,
            last_space_used: 0,
        };
        let snapshot = session.progress.snapshot();
        Ok((session, snapshot))
    }

    /// The snapshot to emit when a stale temp file from a prior crashed run
    /// is about to be removed.
    pub fn cleanup_notice(&mut self) -> (p: WipeProgress)
        requires
            old(self).wf(),
        ensures
            final(self).wf(),
            p == final(self).progress,
            final(self).progress.current_pattern@ == "Cleaning up previous temporary file"@,
            final(self).progress == (WipeProgress {
                bytes_processed: 0,
                current_pattern: final(self).progress.current_pattern,
                percentage: percentage_of(0, 0, old(self).progress.estimated_total_bytes),
                ..old(self).progress
            }),
            *final(self) == (FillSession { progress: final(self).progress, ..*old(self) }),
    {
        self.progress.update(0, "Cleaning up previous temporary file");
        self.progress.snapshot()
    }

    /// Whether the volume's capacity should be re-queried now: at most once
    /// per `REFRESH_INTERVAL_MS` of wall time, to avoid excessive system
    /// calls.
    pub fn should_refresh(&self, now_ms: u64) -> (r: bool)
        ensures
            r == refresh_due(self.last_refresh_ms, now_ms),
    {
        now_ms >= self.last_refresh_ms && now_ms - self.last_refresh_ms >= REFRESH_INTERVAL_MS
    }

    /// Records a capacity re-query. A failed probe (`None`) degrades
    /// gracefully: the last known space-consumed figure is kept.
    pub fn record_refresh(&mut self, available_now: Option<u64>, now_ms: u64)
        requires
            old(self).wf(),
        ensures
            final(self).wf(),
            final(self).last_refresh_ms == now_ms,
            (match available_now {
                Some(cur) => final(self).last_space_used == spec_space_used(
                    old(self).initial_avail,
                    cur,
                ),
                None => final(self).last_space_used == old(self).last_space_used,
            }),
            *final(self) == (FillSession {
                last_refresh_ms: now_ms,
                last_space_used: final(self).last_space_used,
                ..*old(self)
            }),
    {
        self.last_refresh_ms = now_ms;
        match available_now {
            Some(cur) => {
                self.last_space_used = if cur <= self.initial_avail {
                    self.initial_avail - cur
                } else {
                    0
                };
            },
            None => {},
        }
    }

    /// The next chunk of fresh random data to append to the temp file.
    pub fn next_chunk(&self) -> (r: Vec<u8>)
        ensures
            r@.len() == CHUNK_SIZE,
    {
        random_bytes(CHUNK_SIZE as usize)
    }

    /// Records that a full chunk was written. Returns the snapshot to emit
    /// (the fill emits after every chunk; only capacity queries are
    /// throttled) and whether a durability sync is now due.
    pub fn record_write_ok(&mut self) -> (r: (WipeProgress, bool))
        requires
            old(self).wf(),
            old(self).total_written <= u64::MAX - CHUNK_SIZE,
        ensures
            final(self).wf(),
            final(self).total_written == old(self).total_written + CHUNK_SIZE,
            r.1 == (final(self).total_written as int % (SYNC_EVERY_CHUNKS * CHUNK_SIZE) == 0),
            r.0 == final(self).progress,
            final(self).progress.current_pattern@ == fill_progress_label(
                final(self).total_written as int,
            ),
            final(self).progress == (WipeProgress {
                bytes_processed: old(self).last_space_used,
                current_pattern: final(self).progress.current_pattern,
                percentage: percentage_of(
                    old(self).last_space_used,
                    0,
                    old(self).progress.estimated_total_bytes,
                ),
                ..old(self).progress
            }),
            *final(self) == (FillSession {
                total_written: final(self).total_written,
                progress: final(self).progress,
                ..*old(self)
            }),
    {
        self.total_written = self.total_written + CHUNK_SIZE;
        let mut label = "Filling drive space (".to_owned();
        let mb = u64_to_dec(self.total_written / (1024 * 1024));
        label.append(mb.as_str());
        label.append(" MB written)");
        let used = self.last_space_used;
        self.progress.update(used, label.as_str());
        let sync_due = self.total_written % (SYNC_EVERY_CHUNKS * CHUNK_SIZE) == 0;
        (self.progress.snapshot(), sync_due)
    }

    /// Ends the fill after an exhaustion failure: one final capacity
    /// reading, if it succeeded, yields a last "Drive space filled"
    /// snapshot; a failed reading yields none.
    pub fn finish_fill(&mut self, available_now: Option<u64>) -> (r: Option<WipeProgress>)
        requires
            old(self).wf(),
        ensures
            final(self).wf(),
            final(self).total_written == old(self).total_written,
            (match available_now {
                Some(cur) => {
                    &&& r matches Some(p) && p == final(self).progress
                    &&& final(self).last_space_used == spec_space_used(
                        old(self).initial_avail,
                        cur,
                    )
                    &&& final(self).progress.current_pattern@ == "Drive space filled"@
                    &&& final(self).progress.bytes_processed == final(self).last_space_used
                },
                None => r is None && *final(self) == *old(self),
            }),
    {
        match available_now {
            Some(cur) => {
                self.last_space_used = if cur <= self.initial_avail {
                    self.initial_avail - cur
                } else {
                    0
                };
                let used = self.last_space_used;
                self.progress.update(used, "Drive space filled");
                Some(self.progress.snapshot())
            },
            None => None,
        }
    }
}

/// The outcome of an operation the user cancelled.
pub fn cancelled_outcome() -> (r: WipeResult)
    ensures
        !r.success,
        r.message@ == "Operation cancelled by user"@,
{
    WipeResult { success: false, message: "Operation cancelled by user".to_owned() }
}

/// The outcome when a stale temp file from a prior run cannot be removed.
pub fn stale_temp_failure(description: &str) -> (r: WipeResult)
    ensures
        !r.success,
        r.message@ == "Failed to remove existing temporary file: "@ + description@,
{
    let mut message = "Failed to remove existing temporary file: ".to_owned();
    message.append(description);
    WipeResult { success: false, message }
}

/// The outcome when the temp file cannot be created.
pub fn create_temp_failure(description: &str) -> (r: WipeResult)
    ensures
        !r.success,
        r.message@ == "Failed to create temporary file: "@ + description@,
{
    let mut message = "Failed to create temporary file: ".to_owned();
    message.append(description);
    WipeResult { success: false, message }
}

/// The outcome when a fill write fails for a reason other than exhaustion:
/// the fill aborts (and the caller deletes the partial temp file).
pub fn fill_write_failure(description: &str) -> (r: WipeResult)
    ensures
        !r.success,
        r.message@ == "Failed to write to temporary file: "@ + description@,
{
    let mut message = "Failed to write to temporary file: ".to_owned();
    message.append(description);
    WipeResult { success: false, message }
}

/// How the overwrite phase of a free-space wipe ended.
#[derive(Debug, Clone, PartialEq, Eq)]
pub enum FreeSpaceWipeEnd {
    /// The engine ran to completion.
    Completed,
    /// Cancellation was observed.
    Cancelled,
    /// The engine failed; the caller deletes the temp file itself, since
    /// the engine's own cleanup never ran.
    Failed(WipeError),
}

/// The terminal outcome of a free-space wipe, from how its overwrite phase
/// ended: completion succeeds, cancellation is a distinguished (not failed)
/// outcome, and a failure carries the engine's description.
pub fn free_space_outcome(end: FreeSpaceWipeEnd) -> (r: WipeResult)
    ensures
        r.success <==> end == FreeSpaceWipeEnd::Completed,
        end == FreeSpaceWipeEnd::Completed ==> r.message@ == "Successfully wiped free space"@,
        end == FreeSpaceWipeEnd::Cancelled ==> r.message@ == "Operation cancelled by user"@,
        (end matches FreeSpaceWipeEnd::Failed(e) ==> r.message@ == "Failed to wipe free space: "@
            + wipe_error_message(e)),
{
    match end {
        FreeSpaceWipeEnd::Completed => WipeResult {
            success: true,
            message: "Successfully wiped free space".to_owned(),
        },
        FreeSpaceWipeEnd::Cancelled => cancelled_outcome(),
        FreeSpaceWipeEnd::Failed(e) => {
            let mut message = "Failed to wipe free space: ".to_owned();
            let detail = e.message();
            message.append(detail.as_str());
            WipeResult { success: false, message }
        },
    }
}

} // verus!
