//! Aggregation of a batch wipe over many files: a failure on one file does
//! not abort the batch, failures are collected per item, cancellation aborts
//! at the next opportunity and is a distinguished (not failed) outcome.

use vstd::prelude::*;
use vstd::string::StringExecFns;

use crate::errors::WipeError;
use crate::errors::WipeResult;
use crate::errors::wipe_error_message;
use crate::text::dec_str;
use crate::text::join_lines;
use crate::text::join_with_newlines;
use crate::text::u64_to_dec;

verus! {

/// The failure line recorded for a path that does not exist.
pub open spec fn missing_path_line(path: Seq<char>) -> Seq<char> {
    "Path not found: "@ + path
}

/// The failure line recorded for a file whose wipe failed.
pub open spec fn wipe_failure_line(path: Seq<char>, e: WipeError) -> Seq<char> {
    "Failed to wipe "@ + path + ": "@ + wipe_error_message(e)
}

/// The failure line recorded when an emptied directory cannot be removed.
pub open spec fn dir_failure_line(path: Seq<char>, description: Seq<char>) -> Seq<char> {
    "Failed to remove directory "@ + path + ": "@ + description
}

/// The summary of a batch in which every file was wiped.
pub open spec fn batch_success_message(count: int) -> Seq<char> {
    "Successfully wiped "@ + dec_str(count) + " files"@
}

/// The summary of a batch with failures: the success count, the failure
/// count, and the newline-joined failure lines.
pub open spec fn batch_partial_message(count: int, failures: Seq<Seq<char>>) -> Seq<char> {
    "Wiped "@ + dec_str(count) + " files with "@ + dec_str(failures.len() as int) + " errors:\n"@
        + join_lines(failures)
}

/// The running record of one batch wipe.
pub struct BatchState {
    /// How many files were wiped successfully.
    pub total_files: u64,
    /// One human-readable line per failed item, in order of occurrence.
    pub failed: Vec<String>,
}

impl BatchState {
    /// An empty record: no successes, no failures.
    pub fn new() -> (r: BatchState)
        ensures
            r.total_files == 0,
            r.failed.deep_view() == Seq::<Seq<char>>::empty(),
    {
        let r = BatchState { total_files: 0, failed: Vec::new() };
        proof {
            assert(r.failed.deep_view() =~= Seq::<Seq<char>>::empty());
        }
        r
    }

    /// Records one successfully wiped file.
    pub fn record_wiped(&mut self)
        requires
            old(self).total_files < u64::MAX,
        ensures
            *final(self) == (BatchState { total_files: (old(self).total_files + 1) as u64, ..*old(self) }),
    {
        self.total_files = self.total_files + 1;
    }

    /// Records that a batch entry does not exist; the batch goes on.
    pub fn record_missing(&mut self, path: &str)
        ensures
            final(self).total_files == old(self).total_files,
            final(self).failed.deep_view() == old(self).failed.deep_view().push(
                missing_path_line(path@),
            ),
    {
        let mut line = "Path not found: ".to_owned();
        line.append(path);
        self.failed.push(line);
        proof {
            assert(self.failed.deep_view() =~= old(self).failed.deep_view().push(
                missing_path_line(path@),
            ));
        }
    }

    /// Records that wiping one file failed; the batch goes on.
    pub fn record_wipe_failure(&mut self, path: &str, e: &WipeError)
        ensures
            final(self).total_files == old(self).total_files,
            final(self).failed.deep_view() == old(self).failed.deep_view().push(
                wipe_failure_line(path@, *e),
            ),
    {
        let mut line = "Failed to wipe ".to_owned();
        line.append(path);
        line.append(": ");
        let detail = e.message();
        line.append(detail.as_str());
        self.failed.push(line);
        proof {
            assert(self.failed.deep_view() =~= old(self).failed.deep_view().push(
                wipe_failure_line(path@, *e),
            ));
        }
    }

    /// Records that an emptied directory could not be removed.
    pub fn record_dir_failure(&mut self, path: &str, description: &str)
        ensures
            final(self).total_files == old(self).total_files,
            final(self).failed.deep_view() == old(self).failed.deep_view().push(
                dir_failure_line(path@, description@),
            ),
    {
        let mut line = "Failed to remove directory ".to_owned();
        line.append(path);
        line.append(": ");
        line.append(description);
        self.failed.push(line);
        proof {
            assert(self.failed.deep_view() =~= old(self).failed.deep_view().push(
                dir_failure_line(path@, description@),
            ));
        }
    }

    /// The single terminal outcome of the batch. An observed cancellation
    /// dominates and is not a failure; otherwise the batch succeeded if and
    /// only if no item failed.
    pub fn outcome(&self, cancelled: bool) -> (r: WipeResult)
        ensures
            cancelled ==> !r.success && r.message@ == "Operation cancelled by user"@,
            !cancelled && self.failed.deep_view().len() == 0 ==> r.success && r.message@
                == batch_success_message(self.total_files as int),
            !cancelled && self.failed.deep_view().len() > 0 ==> !r.success && r.message@
                == batch_partial_message(self.total_files as int, self.failed.deep_view()),
    {
        if cancelled {
            WipeResult { success: false, message: "Operation cancelled by user".to_owned() }
        } else if self.failed.len() == 0 {
            let mut message = "Successfully wiped ".to_owned();
            let count = u64_to_dec(self.total_files);
            message.append(count.as_str());
            message.append(" files");
            WipeResult { success: true, message }
        } else {
            let mut message = "Wiped ".to_owned();
            let count = u64_to_dec(self.total_files);
            message.append(count.as_str());
            message.append(" files with ");
            let errors = u64_to_dec(self.failed.len() as u64);
            message.append(errors.as_str());
            message.append(" errors:\n");
            let joined = join_with_newlines(&self.failed);
            message.append(joined.as_str());
            WipeResult { success: false, message }
        }
    }
}

} // verus!
