//! The overwrite engine, as a verified state machine.
//!
//! A `WipeSession` never touches the filesystem. The caller repeatedly asks
//! `next_action` what to do next — emit a progress snapshot, seek to the
//! start, write a prepared chunk, sync, truncate, remove — performs that
//! action on the real file, and asks again, aborting the whole wipe if an
//! action fails. The transition relation `step_ok` pins every step down:
//! pass order and labels, chunk sizes and contents, the snapshots at pass
//! start and completion with the at-most-once-per-16-ms mid-pass throttle,
//! the cancellation checkpoints, and the truncate-before-remove termination
//! order.

use vstd::prelude::*;

use crate::errors::WipeError;
use crate::plan::PassPattern;
use crate::plan::PassSpec;
use crate::plan::WipeAlgorithm;
use crate::plan::algorithm_label;
use crate::plan::algorithm_label_str;
use crate::plan::build_pass_plan;
use crate::plan::finalize_label;
use crate::plan::finalize_label_str;
use crate::plan::motif_fill;
use crate::plan::pattern_chunk;
use crate::plan::plan_ok;
use crate::plan::spec_pass_total;
use crate::progress::WipeProgress;
use crate::progress::percentage_of;
use crate::rng::random_bytes;

verus! {

/// Chunk buffer size: writes are issued in pieces of at most this many bytes.
pub const CHUNK_SIZE: u64 = 1024 * 1024;

/// Minimum wall-clock milliseconds between two mid-pass progress snapshots.
pub const PROGRESS_INTERVAL_MS: u64 = 16;

/// Rejects a wipe target before anything is opened: symbolic links are never
/// wiped (and never dereferenced), a missing path fails, and a requested
/// pass count of zero fails before any byte is written.
pub fn precheck_target(exists: bool, is_symlink: bool, passes: u32) -> (r: Result<(), WipeError>)
    ensures
        is_symlink ==> r == Err::<(), WipeError>(WipeError::UnsupportedTarget),
        !is_symlink && !exists ==> r == Err::<(), WipeError>(WipeError::PathNotFound),
        !is_symlink && exists && passes == 0 ==> r == Err::<(), WipeError>(WipeError::InvalidPasses),
        !is_symlink && exists && passes > 0 ==> r == Ok::<(), WipeError>(()),
{
    if is_symlink {
        Err(WipeError::UnsupportedTarget)
    } else if !exists {
        Err(WipeError::PathNotFound)
    } else if passes == 0 {
        Err(WipeError::InvalidPasses)
    } else {
        Ok(())
    }
}

/// Classifies a failure to open the target for writing: an access-control
/// failure gets its own distinct error, anything else is a generic I/O
/// failure carrying the underlying description.
pub fn classify_open_error(permission_denied: bool, description: String) -> (e: WipeError)
    ensures
        permission_denied ==> e == WipeError::PermissionDenied,
        !permission_denied ==> e == WipeError::Io(description),
{
    if permission_denied {
        WipeError::PermissionDenied
    } else {
        WipeError::Io(description)
    }
}

/// Where a wipe stands between two actions.
#[derive(Debug, Clone, Copy, PartialEq, Eq, Structural)]
pub enum WipePhase {
    /// About to announce the start of the current pass.
    PassStart,
    /// About to ask for a seek to offset zero.
    Seeking,
    /// In the chunk loop of the current pass.
    Writing,
    /// A throttled mid-pass snapshot is due.
    MidEmit,
    /// The current pass is fully written; its completion snapshot is due.
    PassEnd,
    /// The completed pass was announced; a durability sync is due.
    Syncing,
    /// All passes are written; the final snapshot is due.
    Finalize,
    /// About to ask for truncation to zero length.
    Truncating,
    /// Truncated; about to ask for removal of the directory entry.
    Removing,
    /// The target was removed; the wipe succeeded.
    Done,
    /// Cancellation was observed; the wipe stopped without cleanup.
    Stopped,
}

/// What the caller must do next on the real file.
#[derive(Debug)]
pub enum WipeAction {
    /// Push this snapshot to the progress sink (failures are swallowed).
    Emit(WipeProgress),
    /// Seek the file to offset zero.
    Seek,
    /// Write these bytes at the current position.
    Write(Vec<u8>),
    /// Force written data to durable storage.
    Sync,
    /// Truncate the file to zero length.
    Truncate,
    /// Close and unlink the file.
    Remove,
    /// Cancellation was observed: stop immediately, leaving the file as is.
    Cancelled,
    /// The wipe has completed; there is nothing left to do.
    Finished,
}

/// The record a step leaves of the action it returned (progress snapshots
/// and file effects; `Cancelled` and `Finished` do nothing and leave none).
#[derive(Debug, Clone, Copy, PartialEq, Eq, Structural)]
pub enum ActionId {
    Emit,
    Seek,
    Write,
    Sync,
    Truncate,
    Remove,
}

/// Pass indices in emitted snapshots never decrease.
pub open spec fn sorted_passes(e: Seq<u32>) -> bool {
    forall|k1: int, k2: int| 0 <= k1 <= k2 < e.len() ==> e[k1] <= e[k2]
}

/// No action so far has truncated or removed the target.
pub open spec fn target_untouched(h: Seq<ActionId>) -> bool {
    forall|k: int|
        0 <= k < h.len() ==> h[k] != ActionId::Truncate && h[k] != ActionId::Remove
}

/// The length of the next chunk: a full buffer, or the clipped remainder of
/// the pass.
pub open spec fn chunk_len(file_size: u64, offset: u64) -> u64
    recommends
        offset < file_size,
{
    if file_size - offset < CHUNK_SIZE {
        (file_size - offset) as u64
    } else {
        CHUNK_SIZE
    }
}

/// Whether a mid-pass snapshot is due: at least `PROGRESS_INTERVAL_MS` of
/// wall-clock time since the last one (a clock that jumped backwards emits
/// nothing).
pub open spec fn throttle_due(last_emit_ms: u64, now_ms: u64) -> bool {
    now_ms >= last_emit_ms && now_ms - last_emit_ms >= PROGRESS_INTERVAL_MS
}

/// The phases at which cancellation is polled: before announcing a pass,
/// before every chunk write, after the last pass, and once more before
/// truncation. Once truncation has begun the wipe runs to completion.
pub open spec fn checkpoint_phase(p: WipePhase) -> bool {
    p == WipePhase::PassStart || p == WipePhase::Writing || p == WipePhase::Finalize || p
        == WipePhase::Truncating
}

/// What a chunk written during this pass must hold: exactly `len` bytes, and
/// for a fixed pass the replicated motif (a random pass promises nothing of
/// the content).
pub open spec fn write_ok_for_pass(p: PassSpec, buf: Seq<u8>, len: u64) -> bool {
    &&& buf.len() == len
    &&& (p.pattern matches PassPattern::Fixed(m) ==> buf == motif_fill(m@, len as int))
}

/// One wipe of one file, as a state machine. Construct it with `start`,
/// then repeatedly call `next_action` and perform what it returns.
pub struct WipeSession {
    /// The chosen algorithm.
    pub algorithm: WipeAlgorithm,
    /// The pass table, built once and never mutated.
    pub plan: Vec<PassSpec>,
    /// Size of the target in bytes, fixed at the start.
    pub file_size: u64,
    /// The progress record mutated in place; snapshots of it are emitted.
    pub progress: WipeProgress,
    /// 0-based index of the current pass.
    pub pass_index: usize,
    /// Bytes already written in the current pass.
    pub offset: u64,
    /// When the last mid-pass snapshot was emitted.
    pub last_emit_ms: u64,
    /// Where the wipe stands.
    pub phase: WipePhase,
    /// Pass index carried by each snapshot emitted so far, in order.
    pub emitted: Ghost<Seq<u32>>,
    /// The actions returned so far, in order.
    pub history: Ghost<Seq<ActionId>>,
}

impl WipeSession {
    /// The pass index the next emitted snapshot may carry at most.
    pub open spec fn emit_cap(self) -> u32 {
        match self.phase {
            WipePhase::PassStart => (self.pass_index + 1) as u32,
            WipePhase::Seeking => (self.pass_index + 1) as u32,
            WipePhase::Writing => (self.pass_index + 1) as u32,
            WipePhase::MidEmit => (self.pass_index + 1) as u32,
            WipePhase::PassEnd => (self.pass_index + 1) as u32,
            WipePhase::Syncing => (self.pass_index + 1) as u32,
            _ => self.plan@.len() as u32,
        }
    }

    /// Well-formedness: the invariant every session built by `start`
    /// satisfies and every step preserves.
    pub open spec fn wf(self) -> bool {
        let len = self.plan@.len();
        &&& plan_ok(self.algorithm, len as u32, self.plan@)
        &&& 1 <= len <= u32::MAX
        &&& self.pass_index <= len
        &&& self.offset <= self.file_size
        &&& self.progress.total_passes == len
        &&& self.progress.total_bytes == self.file_size
        &&& self.progress.current_algorithm@ == algorithm_label(self.algorithm)
        &&& self.progress.percentage == percentage_of(
            self.progress.bytes_processed,
            self.progress.total_bytes,
            self.progress.estimated_total_bytes,
        )
        &&& self.progress.current_pass <= len
        &&& (match self.phase {
            WipePhase::PassStart => self.pass_index < len && self.offset == 0 && (
            self.progress.current_pass == self.pass_index + 1 || self.progress.current_pass
                == self.pass_index),
            WipePhase::Seeking => self.pass_index < len && self.offset == 0
                && self.progress.current_pass == self.pass_index + 1,
            WipePhase::Writing => self.pass_index < len && self.offset < self.file_size
                && self.progress.current_pass == self.pass_index + 1,
            WipePhase::MidEmit => self.pass_index < len && self.progress.current_pass
                == self.pass_index + 1,
            WipePhase::PassEnd => self.pass_index < len && self.offset == self.file_size
                && self.progress.current_pass == self.pass_index + 1,
            WipePhase::Syncing => self.pass_index < len && self.offset == self.file_size
                && self.progress.current_pass == self.pass_index + 1,
            WipePhase::Finalize => self.pass_index == len && self.progress.current_pass == len,
            WipePhase::Truncating => self.pass_index == len && self.progress.current_pass == len,
            WipePhase::Removing => self.pass_index == len && self.progress.current_pass == len,
            WipePhase::Done => self.pass_index == len && self.progress.current_pass == len,
            WipePhase::Stopped => true,
        })
        &&& sorted_passes(self.emitted@)
        &&& (forall|k: int| 0 <= k < self.emitted@.len() ==> self.emitted@[k] <= len)
        &&& (self.emitted@.len() > 0 ==> self.emitted@.last() <= self.emit_cap())
        &&& (match self.phase {
            WipePhase::Removing => self.history@.len() >= 1 && self.history@.last()
                == ActionId::Truncate && target_untouched(
                self.history@.take(self.history@.len() - 1),
            ),
            WipePhase::Done => self.history@.len() >= 2 && self.history@[self.history@.len() - 1]
                == ActionId::Remove && self.history@[self.history@.len() - 2] == ActionId::Truncate
                && target_untouched(self.history@.take(self.history@.len() - 2)),
            _ => target_untouched(self.history@),
        })
    }

    /// Begins a wipe of a target of `file_size` bytes: builds the pass table
    /// (rejecting a pass count of zero before any byte is written) and the
    /// initial progress record. `now_ms` seeds the progress throttle.
    pub fn start(file_size: u64, algorithm: WipeAlgorithm, passes: u32, now_ms: u64) -> (r: Result<
        WipeSession,
        WipeError,
    >)
        ensures
            passes == 0 ==> r == Err::<WipeSession, WipeError>(WipeError::InvalidPasses),
            passes > 0 ==> (r matches Ok(s) && {
                &&& s.wf()
                &&& s.phase == WipePhase::PassStart
                &&& s.algorithm == algorithm
                &&& s.file_size == file_size
                &&& s.plan@.len() == spec_pass_total(algorithm, passes)
                &&& s.progress.current_pass == 1
                &&& s.progress.bytes_processed == 0
                &&& s.progress.estimated_total_bytes is None
                &&& s.emitted@ == Seq::<u32>::empty()
                &&& s.history@ == Seq::<ActionId>::empty()
            }),
    {
        let plan = match build_pass_plan(algorithm, passes) {
            Ok(plan) => plan,
            Err(e) => {
                return Err(e);
            },
        };
        let total = plan.len() as u32;
        let progress = WipeProgress::new(total, file_size, algorithm_label_str(algorithm));
        Ok(
            WipeSession {
                algorithm,
                plan,
                file_size,
                progress,
                pass_index: 0,
                offset: 0,
                last_emit_ms: now_ms,
                phase: WipePhase::PassStart,
                emitted: Ghost(Seq::empty()),
                history: Ghost(Seq::empty()),
            },
        )
    }
}

/// The transition relation of the engine: exactly how one `next_action` call
/// with cancellation flag `cancelled` at wall-clock time `now_ms` takes the
/// session from `pre` to `post` and what action it returns.
pub open spec fn step_ok(
    pre: WipeSession,
    cancelled: bool,
    now_ms: u64,
    post: WipeSession,
    a: WipeAction,
) -> bool {
    if pre.phase == WipePhase::Done {
        &&& post == pre
        &&& a is Finished
    } else if pre.phase == WipePhase::Stopped {
        &&& post == pre
        &&& a is Cancelled
    } else if cancelled && checkpoint_phase(pre.phase) {
        &&& a is Cancelled
        &&& post == (WipeSession { phase: WipePhase::Stopped, ..pre })
    } else {
        match pre.phase {
            WipePhase::PassStart => {
                let i = pre.pass_index as int;
                &&& (a matches WipeAction::Emit(p) && p == post.progress)
                &&& post.progress == (WipeProgress {
                    current_pass: (i + 1) as u32,
                    bytes_processed: 0,
                    current_pattern: post.progress.current_pattern,
                    percentage: percentage_of(
                        0,
                        pre.progress.total_bytes,
                        pre.progress.estimated_total_bytes,
                    ),
                    ..pre.progress
                })
                &&& post.progress.current_pattern@ == pre.plan@[i].label@
                &&& post == (WipeSession {
                    progress: post.progress,
                    phase: WipePhase::Seeking,
                    emitted: post.emitted,
                    history: post.history,
                    ..pre
                })
                &&& post.emitted@ == pre.emitted@.push((i + 1) as u32)
                &&& post.history@ == pre.history@.push(ActionId::Emit)
            },
            WipePhase::Seeking => {
                &&& a is Seek
                &&& post == (WipeSession {
                    offset: 0,
                    phase: if pre.file_size == 0 {
                        WipePhase::PassEnd
                    } else {
                        WipePhase::Writing
                    },
                    history: post.history,
                    ..pre
                })
                &&& post.history@ == pre.history@.push(ActionId::Seek)
            },
            WipePhase::Writing => {
                let i = pre.pass_index as int;
                let len = chunk_len(pre.file_size, pre.offset);
                &&& (a matches WipeAction::Write(buf) && write_ok_for_pass(pre.plan@[i], buf@, len))
                &&& post == (WipeSession {
                    offset: (pre.offset + len) as u64,
                    phase: if throttle_due(pre.last_emit_ms, now_ms) {
                        WipePhase::MidEmit
                    } else if pre.offset + len == pre.file_size {
                        WipePhase::PassEnd
                    } else {
                        WipePhase::Writing
                    },
                    history: post.history,
                    ..pre
                })
                &&& post.history@ == pre.history@.push(ActionId::Write)
            },
            WipePhase::MidEmit => {
                let i = pre.pass_index as int;
                &&& (a matches WipeAction::Emit(p) && p == post.progress)
                &&& post.progress == (WipeProgress {
                    bytes_processed: pre.offset,
                    current_pattern: post.progress.current_pattern,
                    percentage: percentage_of(
                        pre.offset,
                        pre.progress.total_bytes,
                        pre.progress.estimated_total_bytes,
                    ),
                    ..pre.progress
                })
                &&& post.progress.current_pattern@ == pre.plan@[i].label@
                &&& post == (WipeSession {
                    progress: post.progress,
                    last_emit_ms: now_ms,
                    phase: if pre.offset == pre.file_size {
                        WipePhase::PassEnd
                    } else {
                        WipePhase::Writing
                    },
                    emitted: post.emitted,
                    history: post.history,
                    ..pre
                })
                &&& post.emitted@ == pre.emitted@.push(pre.progress.current_pass)
                &&& post.history@ == pre.history@.push(ActionId::Emit)
            },
            WipePhase::PassEnd => {
                let i = pre.pass_index as int;
                &&& (a matches WipeAction::Emit(p) && p == post.progress)
                &&& post.progress == (WipeProgress {
                    bytes_processed: pre.file_size,
                    current_pattern: post.progress.current_pattern,
                    percentage: percentage_of(
                        pre.file_size,
                        pre.progress.total_bytes,
                        pre.progress.estimated_total_bytes,
                    ),
                    ..pre.progress
                })
                &&& post.progress.current_pattern@ == pre.plan@[i].label@
                &&& post == (WipeSession {
                    progress: post.progress,
                    phase: WipePhase::Syncing,
                    emitted: post.emitted,
                    history: post.history,
                    ..pre
                })
                &&& post.emitted@ == pre.emitted@.push(pre.progress.current_pass)
                &&& post.history@ == pre.history@.push(ActionId::Emit)
            },
            WipePhase::Syncing => {
                &&& a is Sync
                &&& post == (WipeSession {
                    pass_index: (pre.pass_index + 1) as usize,
                    offset: 0,
                    phase: if pre.pass_index + 1 == pre.plan@.len() {
                        WipePhase::Finalize
                    } else {
                        WipePhase::PassStart
                    },
                    history: post.history,
                    ..pre
                })
                &&& post.history@ == pre.history@.push(ActionId::Sync)
            },
            WipePhase::Finalize => {
                &&& (a matches WipeAction::Emit(p) && p == post.progress)
                &&& post.progress == (WipeProgress {
                    bytes_processed: pre.file_size,
                    current_pattern: post.progress.current_pattern,
                    percentage: percentage_of(
                        pre.file_size,
                        pre.progress.total_bytes,
                        pre.progress.estimated_total_bytes,
                    ),
                    ..pre.progress
                })
                &&& post.progress.current_pattern@ == finalize_label(pre.algorithm)
                &&& post == (WipeSession {
                    progress: post.progress,
                    phase: WipePhase::Truncating,
                    emitted: post.emitted,
                    history: post.history,
                    ..pre
                })
                &&& post.emitted@ == pre.emitted@.push(pre.progress.current_pass)
                &&& post.history@ == pre.history@.push(ActionId::Emit)
            },
            WipePhase::Truncating => {
                &&& a is Truncate
                &&& post == (WipeSession {
                    phase: WipePhase::Removing,
                    history: post.history,
                    ..pre
                })
                &&& post.history@ == pre.history@.push(ActionId::Truncate)
            },
            WipePhase::Removing => {
                &&& a is Remove
                &&& post == (WipeSession { phase: WipePhase::Done, history: post.history, ..pre })
                &&& post.history@ == pre.history@.push(ActionId::Remove)
            },
            _ => false,
        }
    }
}

/// The rank of a phase within one pass: each in-pass transition either
/// lowers it or makes byte progress.
pub open spec fn phase_rank(p: WipePhase) -> int {
    match p {
        WipePhase::PassStart => 6,
        WipePhase::Seeking => 5,
        WipePhase::MidEmit => 4,
        WipePhase::Writing => 3,
        WipePhase::PassEnd => 2,
        WipePhase::Syncing => 1,
        _ => 0,
    }
}

/// A nonnegative measure of the work a session still has to do. Every
/// `next_action` call that returns neither `Finished` nor `Cancelled`
/// strictly decreases it, so a wipe run ends after finitely many actions.
pub open spec fn step_measure(s: WipeSession) -> int {
    if s.phase == WipePhase::Done || s.phase == WipePhase::Stopped {
        0
    } else if s.phase == WipePhase::Removing {
        1
    } else if s.phase == WipePhase::Truncating {
        2
    } else if s.phase == WipePhase::Finalize {
        3
    } else {
        4 + phase_rank(s.phase) + 8 * (s.file_size - s.offset) + 8 * (s.file_size + 2) * (
        s.plan@.len() - s.pass_index)
    }
}

proof fn lemma_mul_step(a: int, b: int)
    by (nonlinear_arith)
    requires
        a >= 0,
        b >= 1,
    ensures
        a * (b - 1) == a * b - a,
        a * b >= a,
        a * b >= 0,
{
}

/// The measure is nonnegative, and zero exactly in the two terminal phases:
/// a run of the engine cannot go on forever.
pub proof fn lemma_measure_bounds(s: WipeSession)
    requires
        s.wf(),
    ensures
        step_measure(s) >= 0,
        step_measure(s) == 0 <==> (s.phase == WipePhase::Done || s.phase == WipePhase::Stopped),
{
    if s.phase != WipePhase::Done && s.phase != WipePhase::Stopped && s.phase != WipePhase::Removing
        && s.phase != WipePhase::Truncating && s.phase != WipePhase::Finalize {
        lemma_mul_step(8 * (s.file_size + 2), s.plan@.len() - s.pass_index);
    }
}

proof fn lemma_sorted_push(e: Seq<u32>, v: u32)
    requires
        sorted_passes(e),
        e.len() > 0 ==> e.last() <= v,
    ensures
        sorted_passes(e.push(v)),
{
    let e2 = e.push(v);
    assert forall|k1: int, k2: int| 0 <= k1 <= k2 < e2.len() implies e2[k1] <= e2[k2] by {
        if k2 < e.len() {
            assert(e2[k1] == e[k1] && e2[k2] == e[k2]);
        } else if k1 < e.len() {
            assert(e2[k1] == e[k1] && e2[k2] == v);
            assert(e[k1] <= e.last());
        }
    }
}

proof fn lemma_untouched_push(h: Seq<ActionId>, x: ActionId)
    requires
        target_untouched(h),
        x != ActionId::Truncate,
        x != ActionId::Remove,
    ensures
        target_untouched(h.push(x)),
{
    let h2 = h.push(x);
    assert forall|k: int| 0 <= k < h2.len() implies h2[k] != ActionId::Truncate && h2[k]
        != ActionId::Remove by {
        if k < h.len() {
            assert(h2[k] == h[k]);
        }
    }
}

impl WipeSession {
    /// Advances the wipe by one step and says what the caller must now do on
    /// the real file. `cancelled` is the shared cancellation flag as
    /// currently observed; `now_ms` is the wall clock in milliseconds, used
    /// only to throttle mid-pass snapshots. The step taken is exactly
    /// `step_ok`; in particular, once `Cancelled` or `Finished` is returned
    /// the session never again asks for a write, truncation or removal.
    pub fn next_action(&mut self, cancelled: bool, now_ms: u64) -> (a: WipeAction)
        requires
            old(self).wf(),
        ensures
            final(self).wf(),
            step_ok(*old(self), cancelled, now_ms, *final(self), a),
            final(self).progress.current_pass >= old(self).progress.current_pass,
            !(a is Finished) && !(a is Cancelled) ==> step_measure(*final(self)) < step_measure(
                *old(self),
            ),
    {
        proof {
            assert(self.plan@.len() >= 1);
        }
        match self.phase {
            WipePhase::Done => WipeAction::Finished,
            WipePhase::Stopped => WipeAction::Cancelled,
            WipePhase::PassStart => {
                if cancelled {
                    self.phase = WipePhase::Stopped;
                    return WipeAction::Cancelled;
                }
                let i = self.pass_index;
                self.progress.current_pass = (i as u32) + 1;
                let ghost pre_emitted = self.emitted@;
                let ghost pre_history = self.history@;
                let label = self.plan[i].label.clone();
                self.progress.update(0, label.as_str());
                self.phase = WipePhase::Seeking;
                proof {
                    self.emitted@ = self.emitted@.push((i + 1) as u32);
                    self.history@ = self.history@.push(ActionId::Emit);
                    lemma_sorted_push(pre_emitted, (i + 1) as u32);
                    lemma_untouched_push(pre_history, ActionId::Emit);
                }
                WipeAction::Emit(self.progress.snapshot())
            },
            WipePhase::Seeking => {
                let ghost pre_history = self.history@;
                self.offset = 0;
                self.phase = if self.file_size == 0 {
                    WipePhase::PassEnd
                } else {
                    WipePhase::Writing
                };
                proof {
                    self.history@ = self.history@.push(ActionId::Seek);
                    lemma_untouched_push(pre_history, ActionId::Seek);
                }
                WipeAction::Seek
            },
            WipePhase::Writing => {
                if cancelled {
                    self.phase = WipePhase::Stopped;
                    return WipeAction::Cancelled;
                }
                let ghost pre_history = self.history@;
                let i = self.pass_index;
                let remaining = self.file_size - self.offset;
                let len64: u64 = if remaining < CHUNK_SIZE {
                    remaining
                } else {
                    CHUNK_SIZE
                };
                let len: usize = len64 as usize;
                let buf = match &self.plan[i].pattern {
                    PassPattern::Fixed(m) => pattern_chunk(m, len),
                    PassPattern::Random => random_bytes(len),
                };
                self.offset = self.offset + len64;
                self.phase = if now_ms >= self.last_emit_ms && now_ms - self.last_emit_ms
                    >= PROGRESS_INTERVAL_MS {
                    WipePhase::MidEmit
                } else if self.offset == self.file_size {
                    WipePhase::PassEnd
                } else {
                    WipePhase::Writing
                };
                proof {
                    self.history@ = self.history@.push(ActionId::Write);
                    lemma_untouched_push(pre_history, ActionId::Write);
                }
                WipeAction::Write(buf)
            },
            WipePhase::MidEmit => {
                let ghost pre_emitted = self.emitted@;
                let ghost pre_history = self.history@;
                let i = self.pass_index;
                let cur = self.progress.current_pass;
                let label = self.plan[i].label.clone();
                let off = self.offset;
                self.progress.update(off, label.as_str());
                self.last_emit_ms = now_ms;
                self.phase = if self.offset == self.file_size {
                    WipePhase::PassEnd
                } else {
                    WipePhase::Writing
                };
                proof {
                    self.emitted@ = self.emitted@.push(cur);
                    self.history@ = self.history@.push(ActionId::Emit);
                    lemma_sorted_push(pre_emitted, cur);
                    lemma_untouched_push(pre_history, ActionId::Emit);
                }
                WipeAction::Emit(self.progress.snapshot())
            },
            WipePhase::PassEnd => {
                let ghost pre_emitted = self.emitted@;
                let ghost pre_history = self.history@;
                let i = self.pass_index;
                let cur = self.progress.current_pass;
                let label = self.plan[i].label.clone();
                let size = self.file_size;
                self.progress.update(size, label.as_str());
                self.phase = WipePhase::Syncing;
                proof {
                    self.emitted@ = self.emitted@.push(cur);
                    self.history@ = self.history@.push(ActionId::Emit);
                    lemma_sorted_push(pre_emitted, cur);
                    lemma_untouched_push(pre_history, ActionId::Emit);
                }
                WipeAction::Emit(self.progress.snapshot())
            },
            WipePhase::Syncing => {
                let ghost pre_history = self.history@;
                self.pass_index = self.pass_index + 1;
                self.offset = 0;
                self.phase = if self.pass_index == self.plan.len() {
                    WipePhase::Finalize
                } else {
                    WipePhase::PassStart
                };
                proof {
                    self.history@ = self.history@.push(ActionId::Sync);
                    lemma_untouched_push(pre_history, ActionId::Sync);
                    lemma_mul_step(
                        8 * (old(self).file_size + 2),
                        old(self).plan@.len() - old(self).pass_index,
                    );
                }
                WipeAction::Sync
            },
            WipePhase::Finalize => {
                if cancelled {
                    self.phase = WipePhase::Stopped;
                    return WipeAction::Cancelled;
                }
                let ghost pre_emitted = self.emitted@;
                let ghost pre_history = self.history@;
                let cur = self.progress.current_pass;
                let label = finalize_label_str(self.algorithm);
                let size = self.file_size;
                self.progress.update(size, label);
                self.phase = WipePhase::Truncating;
                proof {
                    self.emitted@ = self.emitted@.push(cur);
                    self.history@ = self.history@.push(ActionId::Emit);
                    lemma_sorted_push(pre_emitted, cur);
                    lemma_untouched_push(pre_history, ActionId::Emit);
                }
                WipeAction::Emit(self.progress.snapshot())
            },
            WipePhase::Truncating => {
                if cancelled {
                    self.phase = WipePhase::Stopped;
                    return WipeAction::Cancelled;
                }
                let ghost pre_history = self.history@;
                self.phase = WipePhase::Removing;
                proof {
                    self.history@ = self.history@.push(ActionId::Truncate);
                    assert(self.history@.take(self.history@.len() - 1) =~= pre_history);
                }
                WipeAction::Truncate
            },
            WipePhase::Removing => {
                let ghost pre_history = self.history@;
                self.phase = WipePhase::Done;
                proof {
                    self.history@ = self.history@.push(ActionId::Remove);
                    assert(self.history@.take(self.history@.len() - 2) =~= pre_history.take(
                        pre_history.len() - 1,
                    ));
                }
                WipeAction::Remove
            },
        }
    }
}

/// A wipe that ran to completion issued, as its last two effects and its
/// only destructive ones, a truncation of the target to zero length and then
/// the removal of its directory entry: a successful wipe leaves the target
/// path non-existent, and never shrinks it before the pass sequence is done.
pub proof fn lemma_done_removes_target(s: WipeSession)
    requires
        s.wf(),
        s.phase == WipePhase::Done,
    ensures
        s.history@.len() >= 2,
        s.history@[s.history@.len() - 1] == ActionId::Remove,
        s.history@[s.history@.len() - 2] == ActionId::Truncate,
        forall|k: int|
            0 <= k < s.history@.len() - 2 ==> s.history@[k] != ActionId::Truncate && s.history@[k]
                != ActionId::Remove,
{
    assert forall|k: int|
        0 <= k < s.history@.len() - 2 implies s.history@[k] != ActionId::Truncate && s.history@[k]
        != ActionId::Remove by {
        assert(s.history@.take(s.history@.len() - 2)[k] == s.history@[k]);
    }
}

/// A cancelled wipe never truncated and never removed the target: the file
/// is left in place (partially overwritten), and cancellation is an outcome,
/// not a crash.
pub proof fn lemma_cancelled_preserves_target(s: WipeSession)
    requires
        s.wf(),
        s.phase == WipePhase::Stopped,
    ensures
        forall|k: int|
            0 <= k < s.history@.len() ==> s.history@[k] != ActionId::Truncate && s.history@[k]
                != ActionId::Remove,
{
}

/// Progress pass indices are monotonically non-decreasing within one call
/// and never exceed the total number of passes.
pub proof fn lemma_progress_monotonic(s: WipeSession, k1: int, k2: int)
    requires
        s.wf(),
        0 <= k1 <= k2 < s.emitted@.len(),
    ensures
        s.emitted@[k1] <= s.emitted@[k2],
        s.emitted@[k2] <= s.progress.total_passes,
{
}

} // verus!
