//! Pass-table construction: for each algorithm, the ordered, immutable list
//! of passes (pattern bytes or fresh random data, and a human label) that
//! one wipe call executes.

use vstd::prelude::*;
use vstd::string::StringExecFns;

use crate::errors::WipeError;
use crate::text::dec_str;
use crate::text::u64_to_dec;

verus! {

/// The sanitization algorithm chosen by the caller.
#[derive(Debug, Clone, Copy, PartialEq, Eq, Structural)]
pub enum WipeAlgorithm {
    /// One pass of zeros.
    NistClear,
    /// Three passes: zeros, ones, random.
    NistPurge,
    /// The historical fixed 35-pass table: 4 random passes, 27 pattern
    /// passes, 4 random passes.
    Gutmann,
    /// A caller-chosen number of random passes.
    Random,
}

/// What one pass writes: a short motif replicated to fill each buffer, or
/// fresh random bytes regenerated per chunk.
#[derive(Debug)]
pub enum PassPattern {
    /// The motif of bytes to repeat; never empty.
    Fixed(Vec<u8>),
    /// Fresh random data.
    Random,
}

/// One pass of a wipe: immutable once the table is built.
#[derive(Debug)]
pub struct PassSpec {
    /// 1-based position of this pass.
    pub index: u32,
    /// How many passes the table has.
    pub total: u32,
    /// What this pass writes.
    pub pattern: PassPattern,
    /// Human label reported with progress snapshots of this pass.
    pub label: String,
}

/// How many passes the algorithm makes when `passes` are requested: the
/// request only matters for `Random`; the other tables are fixed.
pub open spec fn spec_pass_total(a: WipeAlgorithm, passes: u32) -> u32 {
    match a {
        WipeAlgorithm::NistClear => 1,
        WipeAlgorithm::NistPurge => 3,
        WipeAlgorithm::Gutmann => 35,
        WipeAlgorithm::Random => passes,
    }
}

/// The human label of the algorithm.
pub open spec fn algorithm_label(a: WipeAlgorithm) -> Seq<char> {
    match a {
        WipeAlgorithm::NistClear => "NIST 800-88 Clear"@,
        WipeAlgorithm::NistPurge => "NIST 800-88 Purge"@,
        WipeAlgorithm::Gutmann => "Gutmann"@,
        WipeAlgorithm::Random => "Random"@,
    }
}

/// The human label of the algorithm.
pub fn algorithm_label_str(a: WipeAlgorithm) -> (s: &'static str)
    ensures
        s@ == algorithm_label(a),
{
    match a {
        WipeAlgorithm::NistClear => "NIST 800-88 Clear",
        WipeAlgorithm::NistPurge => "NIST 800-88 Purge",
        WipeAlgorithm::Gutmann => "Gutmann",
        WipeAlgorithm::Random => "Random",
    }
}

/// The label of the snapshot emitted once at the very end of a wipe.
pub open spec fn finalize_label(a: WipeAlgorithm) -> Seq<char> {
    match a {
        WipeAlgorithm::NistClear => "Finalizing NIST 800-88 Clear wipe"@,
        WipeAlgorithm::NistPurge => "Finalizing NIST 800-88 Purge wipe"@,
        WipeAlgorithm::Gutmann => "Finalizing Gutmann wipe"@,
        WipeAlgorithm::Random => "Finalizing random wipe"@,
    }
}

/// The label of the snapshot emitted once at the very end of a wipe.
pub fn finalize_label_str(a: WipeAlgorithm) -> (s: &'static str)
    ensures
        s@ == finalize_label(a),
{
    match a {
        WipeAlgorithm::NistClear => "Finalizing NIST 800-88 Clear wipe",
        WipeAlgorithm::NistPurge => "Finalizing NIST 800-88 Purge wipe",
        WipeAlgorithm::Gutmann => "Finalizing Gutmann wipe",
        WipeAlgorithm::Random => "Finalizing random wipe",
    }
}

/// Whether pass `i` (0-based) of the algorithm writes random data.
pub open spec fn pass_is_random(a: WipeAlgorithm, i: int) -> bool {
    match a {
        WipeAlgorithm::NistClear => false,
        WipeAlgorithm::NistPurge => i == 2,
        WipeAlgorithm::Gutmann => i < 4 || i >= 31,
        WipeAlgorithm::Random => true,
    }
}

/// The motif of a fixed Gutmann pass (0-based index 4 to 30).
pub open spec fn gutmann_motif(i: int) -> Seq<u8> {
    if i == 4 {
        seq![0x55u8, 0xAAu8, 0x55u8, 0xAAu8]
    } else if i == 5 {
        seq![0xAAu8, 0x55u8, 0xAAu8, 0x55u8]
    } else if i == 6 {
        seq![0x92u8, 0x49u8, 0x24u8]
    } else if i == 7 {
        seq![0x49u8, 0x24u8, 0x92u8]
    } else if i == 8 {
        seq![0x24u8, 0x92u8, 0x49u8]
    } else if 9 <= i && i <= 24 {
        seq![(0x11 * (i - 9)) as u8]
    } else if i == 25 {
        seq![0x92u8, 0x49u8, 0x24u8]
    } else if i == 26 {
        seq![0x49u8, 0x24u8, 0x92u8]
    } else if i == 27 {
        seq![0x24u8, 0x92u8, 0x49u8]
    } else if i == 28 {
        seq![0x6Du8, 0xB6u8, 0xDBu8]
    } else if i == 29 {
        seq![0xB6u8, 0xDBu8, 0x6Du8]
    } else {
        seq![0xDBu8, 0x6Du8, 0xB6u8]
    }
}

/// The motif of a fixed (non-random) pass of the algorithm.
pub open spec fn pass_motif(a: WipeAlgorithm, i: int) -> Seq<u8> {
    match a {
        WipeAlgorithm::NistClear => seq![0x00u8],
        WipeAlgorithm::NistPurge => if i == 0 {
            seq![0x00u8]
        } else {
            seq![0xFFu8]
        },
        WipeAlgorithm::Gutmann => gutmann_motif(i),
        WipeAlgorithm::Random => seq![0x00u8],
    }
}

/// The label of a Gutmann pass (0-based).
pub open spec fn gutmann_label(i: int) -> Seq<char> {
    if i == 0 {
        "Random data (Pass 1/35)"@
    } else if i == 1 {
        "Random data (Pass 2/35)"@
    } else if i == 2 {
        "Random data (Pass 3/35)"@
    } else if i == 3 {
        "Random data (Pass 4/35)"@
    } else if i == 4 {
        "Pattern 5/35: 0x55 0xAA"@
    } else if i == 5 {
        "Pattern 6/35: 0xAA 0x55"@
    } else if i == 6 {
        "Pattern 7/35: 0x92 0x49 0x24"@
    } else if i == 7 {
        "Pattern 8/35: 0x49 0x24 0x92"@
    } else if i == 8 {
        "Pattern 9/35: 0x24 0x92 0x49"@
    } else if i == 9 {
        "Pattern 10/35: 0x00"@
    } else if i == 10 {
        "Pattern 11/35: 0x11"@
    } else if i == 11 {
        "Pattern 12/35: 0x22"@
    } else if i == 12 {
        "Pattern 13/35: 0x33"@
    } else if i == 13 {
        "Pattern 14/35: 0x44"@
    } else if i == 14 {
        "Pattern 15/35: 0x55"@
    } else if i == 15 {
        "Pattern 16/35: 0x66"@
    } else if i == 16 {
        "Pattern 17/35: 0x77"@
    } else if i == 17 {
        "Pattern 18/35: 0x88"@
    } else if i == 18 {
        "Pattern 19/35: 0x99"@
    } else if i == 19 {
        "Pattern 20/35: 0xAA"@
    } else if i == 20 {
        "Pattern 21/35: 0xBB"@
    } else if i == 21 {
        "Pattern 22/35: 0xCC"@
    } else if i == 22 {
        "Pattern 23/35: 0xDD"@
    } else if i == 23 {
        "Pattern 24/35: 0xEE"@
    } else if i == 24 {
        "Pattern 25/35: 0xFF"@
    } else if i == 25 {
        "Pattern 26/35: 0x92 0x49 0x24"@
    } else if i == 26 {
        "Pattern 27/35: 0x49 0x24 0x92"@
    } else if i == 27 {
        "Pattern 28/35: 0x24 0x92 0x49"@
    } else if i == 28 {
        "Pattern 29/35: 0x6D 0xB6 0xDB"@
    } else if i == 29 {
        "Pattern 30/35: 0xB6 0xDB 0x6D"@
    } else if i == 30 {
        "Pattern 31/35: 0xDB 0x6D 0xB6"@
    } else if i == 31 {
        "Random data (Pass 32/35)"@
    } else if i == 32 {
        "Random data (Pass 33/35)"@
    } else if i == 33 {
        "Random data (Pass 34/35)"@
    } else {
        "Random data (Pass 35/35)"@
    }
}

/// The label of pass `i` (0-based) of `total` under the algorithm.
pub open spec fn pass_label(a: WipeAlgorithm, i: int, total: int) -> Seq<char> {
    match a {
        WipeAlgorithm::NistClear => "NIST 800-88 Clear - Writing zeros"@,
        WipeAlgorithm::NistPurge => if i == 0 {
            "NIST 800-88 Purge - Writing zeros (Pass 1/3)"@
        } else if i == 1 {
            "NIST 800-88 Purge - Writing ones (Pass 2/3)"@
        } else {
            "NIST 800-88 Purge - Writing random data (Pass 3/3)"@
        },
        WipeAlgorithm::Gutmann => gutmann_label(i),
        WipeAlgorithm::Random => "Writing random data (Pass "@ + dec_str(i + 1) + "/"@ + dec_str(
            total,
        ) + ")"@,
    }
}

/// What the table's entry `i` must be for the algorithm.
pub open spec fn pass_spec_ok(a: WipeAlgorithm, total: u32, i: int, p: PassSpec) -> bool {
    &&& p.index == i + 1
    &&& p.total == total
    &&& p.label@ == pass_label(a, i, total as int)
    &&& pass_is_random(a, i) ==> p.pattern is Random
    &&& !pass_is_random(a, i) ==> (p.pattern matches PassPattern::Fixed(m) && m@ == pass_motif(
        a,
        i,
    ) && m@.len() > 0)
}

/// A well-formed pass table for the algorithm.
pub open spec fn plan_ok(a: WipeAlgorithm, total: u32, plan: Seq<PassSpec>) -> bool {
    &&& plan.len() == total
    &&& forall|i: int| 0 <= i < plan.len() ==> pass_spec_ok(a, total, i, #[trigger] plan[i])
}

/// A buffer of `len` bytes holding the motif replicated end to end (the
/// final repetition clipped).
pub open spec fn motif_fill(motif: Seq<u8>, len: int) -> Seq<u8>
    recommends
        motif.len() > 0,
        len >= 0,
{
    Seq::new(len as nat, |i: int| motif[i % (motif.len() as int)])
}

/// Fills a chunk buffer of `len` bytes with the repeating motif.
pub fn pattern_chunk(motif: &Vec<u8>, len: usize) -> (r: Vec<u8>)
    requires
        motif@.len() > 0,
    ensures
        r@ == motif_fill(motif@, len as int),
{
    let mut r: Vec<u8> = Vec::new();
    let mut i: usize = 0;
    while i < len
        invariant
            i <= len,
            motif@.len() > 0,
            r@.len() == i,
            forall|j: int| 0 <= j < i ==> r@[j] == motif@[j % (motif@.len() as int)],
        decreases len - i,
    {
        let idx = i % motif.len();
        r.push(motif[idx]);
        i = i + 1;
    }
    proof {
        assert(r@ =~= motif_fill(motif@, len as int));
    }
    r
}

fn motif1(a: u8) -> (r: Vec<u8>)
    ensures
        r@ =~= seq![a],
{
    let mut v: Vec<u8> = Vec::new();
    v.push(a);
    v
}

fn motif3(a: u8, b: u8, c: u8) -> (r: Vec<u8>)
    ensures
        r@ =~= seq![a, b, c],
{
    let mut v: Vec<u8> = Vec::new();
    v.push(a);
    v.push(b);
    v.push(c);
    v
}

fn motif4(a: u8, b: u8, c: u8, d: u8) -> (r: Vec<u8>)
    ensures
        r@ =~= seq![a, b, c, d],
{
    let mut v: Vec<u8> = Vec::new();
    v.push(a);
    v.push(b);
    v.push(c);
    v.push(d);
    v
}

fn gutmann_label_str(i: u32) -> (s: &'static str)
    requires
        i < 35,
    ensures
        s@ == gutmann_label(i as int),
{
    if i == 0 {
        "Random data (Pass 1/35)"
    } else if i == 1 {
        "Random data (Pass 2/35)"
    } else if i == 2 {
        "Random data (Pass 3/35)"
    } else if i == 3 {
        "Random data (Pass 4/35)"
    } else if i == 4 {
        "Pattern 5/35: 0x55 0xAA"
    } else if i == 5 {
        "Pattern 6/35: 0xAA 0x55"
    } else if i == 6 {
        "Pattern 7/35: 0x92 0x49 0x24"
    } else if i == 7 {
        "Pattern 8/35: 0x49 0x24 0x92"
    } else if i == 8 {
        "Pattern 9/35: 0x24 0x92 0x49"
    } else if i == 9 {
        "Pattern 10/35: 0x00"
    } else if i == 10 {
        "Pattern 11/35: 0x11"
    } else if i == 11 {
        "Pattern 12/35: 0x22"
    } else if i == 12 {
        "Pattern 13/35: 0x33"
    } else if i == 13 {
        "Pattern 14/35: 0x44"
    } else if i == 14 {
        "Pattern 15/35: 0x55"
    } else if i == 15 {
        "Pattern 16/35: 0x66"
    } else if i == 16 {
        "Pattern 17/35: 0x77"
    } else if i == 17 {
        "Pattern 18/35: 0x88"
    } else if i == 18 {
        "Pattern 19/35: 0x99"
    } else if i == 19 {
        "Pattern 20/35: 0xAA"
    } else if i == 20 {
        "Pattern 21/35: 0xBB"
    } else if i == 21 {
        "Pattern 22/35: 0xCC"
    } else if i == 22 {
        "Pattern 23/35: 0xDD"
    } else if i == 23 {
        "Pattern 24/35: 0xEE"
    } else if i == 24 {
        "Pattern 25/35: 0xFF"
    } else if i == 25 {
        "Pattern 26/35: 0x92 0x49 0x24"
    } else if i == 26 {
        "Pattern 27/35: 0x49 0x24 0x92"
    } else if i == 27 {
        "Pattern 28/35: 0x24 0x92 0x49"
    } else if i == 28 {
        "Pattern 29/35: 0x6D 0xB6 0xDB"
    } else if i == 29 {
        "Pattern 30/35: 0xB6 0xDB 0x6D"
    } else if i == 30 {
        "Pattern 31/35: 0xDB 0x6D 0xB6"
    } else if i == 31 {
        "Random data (Pass 32/35)"
    } else if i == 32 {
        "Random data (Pass 33/35)"
    } else if i == 33 {
        "Random data (Pass 34/35)"
    } else {
        "Random data (Pass 35/35)"
    }
}

fn gutmann_motif_vec(i: u32) -> (r: Vec<u8>)
    requires
        4 <= i < 31,
    ensures
        r@ == gutmann_motif(i as int),
{
    if i == 4 {
        motif4(0x55, 0xAA, 0x55, 0xAA)
    } else if i == 5 {
        motif4(0xAA, 0x55, 0xAA, 0x55)
    } else if i == 6 {
        motif3(0x92, 0x49, 0x24)
    } else if i == 7 {
        motif3(0x49, 0x24, 0x92)
    } else if i == 8 {
        motif3(0x24, 0x92, 0x49)
    } else if i <= 24 {
        let b = (0x11 * (i - 9)) as u8;
        motif1(b)
    } else if i == 25 {
        motif3(0x92, 0x49, 0x24)
    } else if i == 26 {
        motif3(0x49, 0x24, 0x92)
    } else if i == 27 {
        motif3(0x24, 0x92, 0x49)
    } else if i == 28 {
        motif3(0x6D, 0xB6, 0xDB)
    } else if i == 29 {
        motif3(0xB6, 0xDB, 0x6D)
    } else {
        motif3(0xDB, 0x6D, 0xB6)
    }
}

fn gutmann_entry(i: u32) -> (p: PassSpec)
    requires
        i < 35,
    ensures
        pass_spec_ok(WipeAlgorithm::Gutmann, 35, i as int, p),
{
    let pattern = if i < 4 || i >= 31 {
        PassPattern::Random
    } else {
        PassPattern::Fixed(gutmann_motif_vec(i))
    };
    PassSpec { index: i + 1, total: 35, pattern, label: gutmann_label_str(i).to_owned() }
}

fn random_label_string(i: u32, total: u32) -> (s: String)
    requires
        i < total,
    ensures
        s@ == pass_label(WipeAlgorithm::Random, i as int, total as int),
{
    let mut s = "Writing random data (Pass ".to_owned();
    let idx = u64_to_dec((i + 1) as u64);
    s.append(idx.as_str());
    s.append("/");
    let tot = u64_to_dec(total as u64);
    s.append(tot.as_str());
    s.append(")");
    s
}

/// Builds the ordered pass table for one wipe call. A requested pass count
/// of zero is rejected before anything else happens; fixed-count algorithms
/// otherwise ignore the request.
pub fn build_pass_plan(algorithm: WipeAlgorithm, passes: u32) -> (r: Result<Vec<PassSpec>, WipeError>)
    ensures
        passes == 0 ==> r == Err::<Vec<PassSpec>, WipeError>(WipeError::InvalidPasses),
        passes > 0 ==> (r matches Ok(plan) && plan_ok(
            algorithm,
            spec_pass_total(algorithm, passes),
            plan@,
        )),
{
    if passes == 0 {
        return Err(WipeError::InvalidPasses);
    }
    match algorithm {
        WipeAlgorithm::NistClear => {
            let mut plan: Vec<PassSpec> = Vec::new();
            plan.push(
                PassSpec {
                    index: 1,
                    total: 1,
                    pattern: PassPattern::Fixed(motif1(0x00)),
                    label: "NIST 800-88 Clear - Writing zeros".to_owned(),
                },
            );
            Ok(plan)
        },
        WipeAlgorithm::NistPurge => {
            let mut plan: Vec<PassSpec> = Vec::new();
            plan.push(
                PassSpec {
                    index: 1,
                    total: 3,
                    pattern: PassPattern::Fixed(motif1(0x00)),
                    label: "NIST 800-88 Purge - Writing zeros (Pass 1/3)".to_owned(),
                },
            );
            plan.push(
                PassSpec {
                    index: 2,
                    total: 3,
                    pattern: PassPattern::Fixed(motif1(0xFF)),
                    label: "NIST 800-88 Purge - Writing ones (Pass 2/3)".to_owned(),
                },
            );
            plan.push(
                PassSpec {
                    index: 3,
                    total: 3,
                    pattern: PassPattern::Random,
                    label: "NIST 800-88 Purge - Writing random data (Pass 3/3)".to_owned(),
                },
            );
            Ok(plan)
        },
        WipeAlgorithm::Gutmann => {
            let mut plan: Vec<PassSpec> = Vec::new();
            let mut i: u32 = 0;
            while i < 35
                invariant
                    i <= 35,
                    plan@.len() == i,
                    forall|j: int|
                        0 <= j < i ==> pass_spec_ok(WipeAlgorithm::Gutmann, 35, j, #[trigger] plan@[j]),
                decreases 35 - i,
            {
                plan.push(gutmann_entry(i));
                i = i + 1;
            }
            Ok(plan)
        },
        WipeAlgorithm::Random => {
            let mut plan: Vec<PassSpec> = Vec::new();
            let mut i: u32 = 0;
            while i < passes
                invariant
                    i <= passes,
                    plan@.len() == i,
                    forall|j: int|
                        0 <= j < i ==> pass_spec_ok(
                            WipeAlgorithm::Random,
                            passes,
                            j,
                            #[trigger] plan@[j],
                        ),
                decreases passes - i,
            {
                plan.push(
                    PassSpec {
                        index: i + 1,
                        total: passes,
                        pattern: PassPattern::Random,
                        label: random_label_string(i, passes),
                    },
                );
                i = i + 1;
            }
            Ok(plan)
        },
    }
}

} // verus!
