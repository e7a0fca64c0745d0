//! Progress snapshots: the engine mutates one `WipeProgress` in place and
//! hands throttled copies of it to the caller's sink.

use vstd::prelude::*;
use vstd::string::StringExecFns;

verus! {

/// One progress snapshot of a running wipe.
#[derive(Debug)]
pub struct WipeProgress {
    /// 1-based index of the pass being written.
    pub current_pass: u32,
    /// How many passes the whole operation makes.
    pub total_passes: u32,
    /// Bytes already processed in the current pass.
    pub bytes_processed: u64,
    /// Size of the target, in bytes.
    pub total_bytes: u64,
    /// Human label of the algorithm being run.
    pub current_algorithm: String,
    /// Human label of the pattern (pass) being written.
    pub current_pattern: String,
    /// `bytes_processed` as a whole-number percentage of the scale estimate
    /// (see `percentage_of`); deliberately not clamped at 100.
    pub percentage: u64,
    /// Advisory scale estimate that overrides `total_bytes` for the
    /// percentage, when one is known (free-space wipes).
    pub estimated_total_bytes: Option<u64>,
}

/// The percentage figure reported for `bytes` processed out of an estimated
/// or exact total: `bytes * 100 / denominator`, rounded down, where the
/// denominator is the estimate when one is present and `total` otherwise.
/// A zero denominator reports zero; a figure beyond `u64::MAX` saturates.
pub open spec fn percentage_of(bytes: u64, total: u64, estimated: Option<u64>) -> u64 {
    let denom: u64 = match estimated {
        Some(e) => e,
        None => total,
    };
    if denom == 0 {
        0
    } else {
        let p = (bytes as int) * 100 / (denom as int);
        if p > u64::MAX as int {
            u64::MAX
        } else {
            p as u64
        }
    }
}

fn compute_percentage(bytes: u64, total: u64, estimated: &Option<u64>) -> (p: u64)
    ensures
        p == percentage_of(bytes, total, *estimated),
{
    let denom: u64 = match estimated {
        Some(e) => *e,
        None => total,
    };
    if denom == 0 {
        0u64
    } else {
        let q: u128 = (bytes as u128) * 100 / (denom as u128);
        if q > u64::MAX as u128 {
            u64::MAX
        } else {
            q as u64
        }
    }
}

impl WipeProgress {
    /// A snapshot for the start of an operation: first pass, nothing
    /// processed, no pattern yet, no scale estimate.
    pub fn new(total_passes: u32, total_bytes: u64, current_algorithm: &str) -> (p: WipeProgress)
        ensures
            p.current_pass == 1,
            p.total_passes == total_passes,
            p.bytes_processed == 0,
            p.total_bytes == total_bytes,
            p.current_algorithm@ == current_algorithm@,
            p.current_pattern@ == Seq::<char>::empty(),
            p.percentage == 0,
            p.estimated_total_bytes is None,
    {
        WipeProgress {
            current_pass: 1,
            total_passes,
            bytes_processed: 0,
            total_bytes,
            current_algorithm: current_algorithm.to_owned(),
            current_pattern: String::new(),
            percentage: 0,
            estimated_total_bytes: None,
        }
    }

    /// Records progress: the bytes processed so far and the pattern label,
    /// recomputing the percentage. All other fields are kept.
    pub fn update(&mut self, bytes_processed: u64, pattern: &str)
        ensures
            *final(self) == (WipeProgress {
                bytes_processed,
                current_pattern: final(self).current_pattern,
                percentage: percentage_of(
                    bytes_processed,
                    old(self).total_bytes,
                    old(self).estimated_total_bytes,
                ),
                ..*old(self)
            }),
            final(self).current_pattern@ == pattern@,
    {
        self.bytes_processed = bytes_processed;
        self.current_pattern = pattern.to_owned();
        self.percentage = compute_percentage(
            bytes_processed,
            self.total_bytes,
            &self.estimated_total_bytes,
        );
    }

    /// An identical copy, handed to the progress sink while the engine keeps
    /// mutating its own.
    pub fn snapshot(&self) -> (p: WipeProgress)
        ensures
            p == *self,
    {
        WipeProgress {
            current_pass: self.current_pass,
            total_passes: self.total_passes,
            bytes_processed: self.bytes_processed,
            total_bytes: self.total_bytes,
            current_algorithm: self.current_algorithm.clone(),
            current_pattern: self.current_pattern.clone(),
            percentage: self.percentage,
            estimated_total_bytes: self.estimated_total_bytes,
        }
    }
}

} // verus!
