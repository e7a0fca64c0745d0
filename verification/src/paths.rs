//! Path-level decisions: validating a volume root for a free-space wipe,
//! collecting wipe targets from command-line arguments, and screening
//! candidate paths for a batch wipe.
//!
//! Nothing here touches the filesystem: where a decision depends on what is
//! on disk (does the path exist, is it a symbolic link), the caller probes
//! and passes the facts in.

use vstd::prelude::*;
use vstd::string::StrSliceExecFns;
use vstd::string::StringExecFns;

use crate::errors::DriveValidationError;
use crate::errors::WipeResult;
use crate::text::char_count;
use crate::text::count_char;

verus! {

/// Whether the path names the root of a drive: its normalized form holds
/// exactly one backslash separator.
pub open spec fn is_drive_root(s: Seq<char>) -> bool {
    char_count(s, '\\') == 1
}

/// Validates that the path exists and names a drive root, before any
/// free-space operation touches the filesystem. `exists` is the caller's
/// probe of the path.
pub fn validate_drive_path_internal(path: &str, exists: bool) -> (r: Result<
    (),
    DriveValidationError,
>)
    ensures
        !exists ==> r == Err::<(), DriveValidationError>(DriveValidationError::PathNotFound),
        exists && !is_drive_root(path@) ==> r == Err::<(), DriveValidationError>(
            DriveValidationError::NotDriveRoot,
        ),
        exists && is_drive_root(path@) ==> r == Ok::<(), DriveValidationError>(()),
{
    if !exists {
        return Err(DriveValidationError::PathNotFound);
    }
    if count_char(path, '\\') != 1 {
        return Err(DriveValidationError::NotDriveRoot);
    }
    Ok(())
}

/// A separator between multiple selections delivered in a single
/// command-line argument.
pub open spec fn is_path_separator(c: char) -> bool {
    c == '|' || c == '\n' || c == '\r' || c == ';'
}

/// Splitting a command-line value at separators, keeping the non-empty
/// pieces: `cur` is the piece read so far.
pub open spec fn split_paths_acc(s: Seq<char>, cur: Seq<char>) -> Seq<Seq<char>>
    decreases s.len(),
{
    if s.len() == 0 {
        if cur.len() > 0 {
            seq![cur]
        } else {
            seq![]
        }
    } else if is_path_separator(s[0]) {
        (if cur.len() > 0 {
            seq![cur]
        } else {
            seq![]
        }) + split_paths_acc(s.drop_first(), seq![])
    } else {
        split_paths_acc(s.drop_first(), cur.push(s[0]))
    }
}

/// The non-empty pieces of a command-line value, split at separators.
pub open spec fn split_paths(s: Seq<char>) -> Seq<Seq<char>> {
    split_paths_acc(s, seq![])
}

/// Whether the argument is an option (it begins with two dashes) rather
/// than a path value.
pub open spec fn starts_with_dashes(s: Seq<char>) -> bool {
    s.len() >= 2 && s[0] == '-' && s[1] == '-'
}

/// The paths collected from the arguments after the wipe flag: every
/// non-option argument, each split at separators.
pub open spec fn collect_from(entries: Seq<Seq<char>>) -> Seq<Seq<char>>
    decreases entries.len(),
{
    if entries.len() == 0 {
        seq![]
    } else if starts_with_dashes(entries[0]) {
        collect_from(entries.drop_first())
    } else {
        split_paths(entries[0]) + collect_from(entries.drop_first())
    }
}

/// The wipe targets named on a command line: nothing without the
/// `--context-wipe` flag; with it, everything `collect_from` gathers after
/// its first occurrence.
pub open spec fn collect_spec(args: Seq<Seq<char>>) -> Seq<Seq<char>>
    decreases args.len(),
{
    if args.len() == 0 {
        seq![]
    } else if args[0] == "--context-wipe"@ {
        collect_from(args.drop_first())
    } else {
        collect_spec(args.drop_first())
    }
}

fn split_paths_into(s: &str, i: usize, start: usize, out: &mut Vec<String>)
    requires
        start <= i <= s@.len(),
        forall|j: int| start <= j < i ==> !is_path_separator(s@[j]),
    ensures
        final(out).deep_view() == old(out).deep_view() + split_paths_acc(
            s@.skip(i as int),
            s@.subrange(start as int, i as int),
        ),
    decreases s@.len() - i,
{
    let len = s.unicode_len();
    if i == len {
        if i > start {
            out.push(s.substring_char(start, i).to_owned());
            proof {
                assert(s@.skip(i as int) =~= Seq::<char>::empty());
                assert(out.deep_view() =~= old(out).deep_view() + seq![
                    s@.subrange(start as int, i as int),
                ]);
            }
        } else {
            proof {
                assert(s@.skip(i as int) =~= Seq::<char>::empty());
                assert(s@.subrange(start as int, i as int) =~= Seq::<char>::empty());
                assert(out.deep_view() =~= old(out).deep_view() + split_paths_acc(
                    s@.skip(i as int),
                    s@.subrange(start as int, i as int),
                ));
            }
        }
    } else {
        let c = s.get_char(i);
        proof {
            assert(s@.skip(i as int)[0] == s@[i as int]);
            assert(s@.skip(i as int).drop_first() =~= s@.skip(i as int + 1));
        }
        if c == '|' || c == '\n' || c == '\r' || c == ';' {
            if i > start {
                out.push(s.substring_char(start, i).to_owned());
                proof {
                    assert(out.deep_view() =~= old(out).deep_view() + seq![
                        s@.subrange(start as int, i as int),
                    ]);
                }
            } else {
                proof {
                    assert(s@.subrange(start as int, i as int) =~= Seq::<char>::empty());
                }
            }
            split_paths_into(s, i + 1, i + 1, out);
            proof {
                assert(s@.subrange(i as int + 1, i as int + 1) =~= Seq::<char>::empty());
                assert(out.deep_view() =~= old(out).deep_view() + split_paths_acc(
                    s@.skip(i as int),
                    s@.subrange(start as int, i as int),
                ));
            }
        } else {
            split_paths_into(s, i + 1, start, out);
            proof {
                assert(s@.subrange(start as int, i as int).push(s@[i as int]) =~= s@.subrange(
                    start as int,
                    i as int + 1,
                ));
            }
        }
    }
}

fn collect_after_flag(args: &Vec<String>, i: usize, out: &mut Vec<String>)
    requires
        i <= args@.len(),
    ensures
        final(out).deep_view() == old(out).deep_view() + collect_from(args.deep_view().skip(i as int)),
    decreases args@.len() - i,
{
    if i == args.len() {
        proof {
            assert(args.deep_view().skip(i as int) =~= Seq::<Seq<char>>::empty());
            assert(out.deep_view() =~= old(out).deep_view() + Seq::<Seq<char>>::empty());
        }
    } else {
        proof {
            assert(args.deep_view().skip(i as int)[0] == args.deep_view()[i as int]);
            assert(args.deep_view().skip(i as int).drop_first() =~= args.deep_view().skip(
                i as int + 1,
            ));
        }
        let entry = &args[i];
        let e = entry.as_str();
        let elen = e.unicode_len();
        let is_option = elen >= 2 && e.get_char(0) == '-' && e.get_char(1) == '-';
        if is_option {
            collect_after_flag(args, i + 1, out);
        } else {
            proof {
                assert(e@.subrange(0, 0) =~= Seq::<char>::empty());
                assert(e@.skip(0) =~= e@);
            }
            split_paths_into(e, 0, 0, out);
            collect_after_flag(args, i + 1, out);
            proof {
                assert(out.deep_view() =~= old(out).deep_view() + collect_from(
                    args.deep_view().skip(i as int),
                ));
            }
        }
    }
}

fn collect_scan(args: &Vec<String>, i: usize, flag: &String, out: &mut Vec<String>)
    requires
        i <= args@.len(),
        flag@ == "--context-wipe"@,
    ensures
        final(out).deep_view() == old(out).deep_view() + collect_spec(args.deep_view().skip(i as int)),
    decreases args@.len() - i,
{
    if i == args.len() {
        proof {
            assert(args.deep_view().skip(i as int) =~= Seq::<Seq<char>>::empty());
            assert(out.deep_view() =~= old(out).deep_view() + Seq::<Seq<char>>::empty());
        }
    } else {
        proof {
            assert(args.deep_view().skip(i as int)[0] == args.deep_view()[i as int]);
            assert(args.deep_view().skip(i as int).drop_first() =~= args.deep_view().skip(
                i as int + 1,
            ));
        }
        let entry = &args[i];
        if *entry == *flag {
            collect_after_flag(args, i + 1, out);
        } else {
            collect_scan(args, i + 1, flag, out);
        }
    }
}

/// Collects the wipe targets named on a command line: the values after the
/// first `--context-wipe` flag, skipping further options, each value split
/// at the separators a multi-selection may arrive under (pipes, newlines,
/// semicolons).
pub fn collect_context_paths(args: &Vec<String>) -> (r: Vec<String>)
    ensures
        r.deep_view() == collect_spec(args.deep_view()),
{
    let flag: String = "--context-wipe".to_owned();
    let mut out: Vec<String> = Vec::new();
    proof {
        assert(out.deep_view() =~= Seq::<Seq<char>>::empty());
        assert(args.deep_view().skip(0) =~= args.deep_view());
    }
    collect_scan(args, 0, &flag, &mut out);
    out
}

/// The outcome reported for a drive-path validation request: success if and
/// only if the path exists and is a drive root, with the matching message.
pub fn validate_drive_path(path: &str, exists: bool) -> (r: WipeResult)
    ensures
        r.success <==> (exists && is_drive_root(path@)),
        r.success ==> r.message@ == "Path validation successful"@,
        !exists ==> r.message@ == "Path not found"@,
        exists && !is_drive_root(path@) ==> r.message@ == "Selected path is not a drive root"@,
{
    match validate_drive_path_internal(path, exists) {
        Ok(_) => WipeResult { success: true, message: "Path validation successful".to_owned() },
        Err(e) => WipeResult { success: false, message: e.message() },
    }
}

/// The whitespace stripped from both ends of a candidate path.
pub open spec fn is_trim_ws(c: char) -> bool {
    c == ' ' || c == '\t' || c == '\n' || c == '\r'
}

/// The candidate with leading whitespace removed.
pub open spec fn trim_front(s: Seq<char>) -> Seq<char>
    decreases s.len(),
{
    if s.len() > 0 && is_trim_ws(s[0]) {
        trim_front(s.drop_first())
    } else {
        s
    }
}

/// The candidate with trailing whitespace removed.
pub open spec fn trim_back(s: Seq<char>) -> Seq<char>
    decreases s.len(),
{
    if s.len() > 0 && is_trim_ws(s.last()) {
        trim_back(s.drop_last())
    } else {
        s
    }
}

/// The candidate with whitespace removed from both ends.
pub open spec fn trim_spec(s: Seq<char>) -> Seq<char> {
    trim_back(trim_front(s))
}

fn trim_front_exec<'a>(s: &'a str) -> (t: &'a str)
    ensures
        t@ == trim_front(s@),
    decreases s@.len(),
{
    let len = s.unicode_len();
    if len > 0 {
        let c = s.get_char(0);
        if c == ' ' || c == '\t' || c == '\n' || c == '\r' {
            let rest = s.substring_char(1, len);
            proof {
                assert(rest@ =~= s@.drop_first());
            }
            return trim_front_exec(rest);
        }
    }
    s
}

fn trim_back_exec<'a>(s: &'a str) -> (t: &'a str)
    ensures
        t@ == trim_back(s@),
    decreases s@.len(),
{
    let len = s.unicode_len();
    if len > 0 {
        let c = s.get_char(len - 1);
        if c == ' ' || c == '\t' || c == '\n' || c == '\r' {
            let rest = s.substring_char(0, len - 1);
            proof {
                assert(rest@ =~= s@.drop_last());
            }
            return trim_back_exec(rest);
        }
    }
    s
}

/// Whether the candidate is a network (UNC) path, which batch wipes do not
/// support.
pub open spec fn is_network_path(s: Seq<char>) -> bool {
    s.len() >= 2 && s[0] == '\\' && s[1] == '\\'
}

/// What the filesystem-independent screening of one raw candidate says.
#[derive(Debug)]
pub enum ContextPrecheck {
    /// The candidate was blank and is silently dropped.
    Skip,
    /// The candidate is a network path: rejected, with the failure line.
    Network(String),
    /// The candidate (trimmed) must be probed on the filesystem.
    Probe(String),
}

/// Screens one raw candidate without touching the filesystem: trims it,
/// drops it if blank, rejects network paths, and otherwise hands back the
/// trimmed path for the caller to probe.
pub fn precheck_context_path(raw: &str) -> (r: ContextPrecheck)
    ensures
        trim_spec(raw@).len() == 0 ==> r is Skip,
        trim_spec(raw@).len() > 0 && is_network_path(trim_spec(raw@)) ==> (r matches
            ContextPrecheck::Network(m) && m@ == "Network paths are not supported: "@ + trim_spec(
            raw@,
        )),
        trim_spec(raw@).len() > 0 && !is_network_path(trim_spec(raw@)) ==> (r matches
            ContextPrecheck::Probe(t) && t@ == trim_spec(raw@)),
{
    let trimmed = trim_back_exec(trim_front_exec(raw));
    let len = trimmed.unicode_len();
    if len == 0 {
        ContextPrecheck::Skip
    } else if len >= 2 && trimmed.get_char(0) == '\\' && trimmed.get_char(1) == '\\' {
        let mut m = "Network paths are not supported: ".to_owned();
        m.append(trimmed);
        ContextPrecheck::Network(m)
    } else {
        ContextPrecheck::Probe(trimmed.to_owned())
    }
}

/// What the caller observed when probing a candidate for being a symbolic
/// link.
#[derive(Debug)]
pub enum SymlinkProbe {
    /// The candidate is not a symbolic link.
    NotLink,
    /// The candidate is a symbolic link.
    Link,
    /// The probe itself failed, with the platform's description.
    Unreadable(String),
}

/// The verdict on one probed candidate.
#[derive(Debug)]
pub enum ContextScreen {
    /// The candidate is accepted under this canonical form.
    Valid(String),
    /// The candidate is rejected, with this failure line.
    Invalid(String),
}

/// Classifies one probed candidate. `exists` and `symlink` are the caller's
/// filesystem probes of the trimmed path; `canonical` is its canonical form,
/// where one could be read back as text (the trimmed path itself serves when
/// canonicalization fails, and `None` means the form was not valid text).
pub fn classify_context_path(
    trimmed: &str,
    exists: bool,
    symlink: SymlinkProbe,
    canonical: Option<String>,
) -> (r: ContextScreen)
    ensures
        !exists ==> (r matches ContextScreen::Invalid(m) && m@ == "Path not found: "@ + trimmed@),
        exists ==> match symlink {
            SymlinkProbe::Unreadable(d) => r matches ContextScreen::Invalid(m) && m@
                == "Failed to inspect "@ + trimmed@ + ": "@ + d@,
            SymlinkProbe::Link => r matches ContextScreen::Invalid(m) && m@
                == "Symbolic links are not supported: "@ + trimmed@,
            SymlinkProbe::NotLink => match canonical {
                None => r matches ContextScreen::Invalid(m) && m@ == "Unsupported path encoding: "@
                    + trimmed@,
                Some(c) => r == ContextScreen::Valid(c),
            },
        },
{
    if !exists {
        let mut m = "Path not found: ".to_owned();
        m.append(trimmed);
        return ContextScreen::Invalid(m);
    }
    match symlink {
        SymlinkProbe::Unreadable(d) => {
            let mut m = "Failed to inspect ".to_owned();
            m.append(trimmed);
            m.append(": ");
            m.append(d.as_str());
            ContextScreen::Invalid(m)
        },
        SymlinkProbe::Link => {
            let mut m = "Symbolic links are not supported: ".to_owned();
            m.append(trimmed);
            ContextScreen::Invalid(m)
        },
        SymlinkProbe::NotLink => match canonical {
            None => {
                let mut m = "Unsupported path encoding: ".to_owned();
                m.append(trimmed);
                ContextScreen::Invalid(m)
            },
            Some(c) => ContextScreen::Valid(c),
        },
    }
}

/// Whether some element of `s` is exactly `x`.
pub open spec fn contains_text(s: Seq<Seq<char>>, x: Seq<char>) -> bool {
    exists|k: int| 0 <= k < s.len() && s[k] == x
}

fn contains_string(v: &Vec<String>, x: &String) -> (r: bool)
    ensures
        r == contains_text(v.deep_view(), x@),
{
    let mut i: usize = 0;
    while i < v.len()
        invariant
            i <= v@.len(),
            forall|k: int| 0 <= k < i ==> v.deep_view()[k] != x@,
        decreases v@.len() - i,
    {
        if v[i] == *x {
            proof {
                assert(v.deep_view()[i as int] == x@);
            }
            return true;
        }
        i = i + 1;
    }
    false
}

/// The payload delivered when a batch of context-selected paths has been
/// screened: the accepted canonical paths, the failure line of every
/// rejected candidate, and where the request came from.
#[derive(Debug)]
pub struct ContextWipePayload {
    /// The accepted canonical paths, in order, without duplicates.
    pub paths: Vec<String>,
    /// One failure line per rejected candidate, in order.
    pub invalid: Vec<String>,
    /// Where the request came from.
    pub source: String,
}

/// Accumulates screened candidates in order, deduplicating accepted paths
/// by their canonical form.
pub struct ContextAccumulator {
    /// The accepted canonical paths so far.
    pub valid: Vec<String>,
    /// The failure lines so far.
    pub invalid: Vec<String>,
}

impl ContextAccumulator {
    /// An empty accumulator.
    pub fn new() -> (r: ContextAccumulator)
        ensures
            r.valid.deep_view() == Seq::<Seq<char>>::empty(),
            r.invalid.deep_view() == Seq::<Seq<char>>::empty(),
    {
        let r = ContextAccumulator { valid: Vec::new(), invalid: Vec::new() };
        proof {
            assert(r.valid.deep_view() =~= Seq::<Seq<char>>::empty());
            assert(r.invalid.deep_view() =~= Seq::<Seq<char>>::empty());
        }
        r
    }

    /// Records one screened candidate: a failure line is appended to the
    /// rejections; an accepted path is appended unless an identical one was
    /// already accepted.
    pub fn add(&mut self, screen: ContextScreen)
        ensures
            (match screen {
                ContextScreen::Invalid(m) => {
                    &&& final(self).invalid.deep_view() == old(self).invalid.deep_view().push(m@)
                    &&& final(self).valid == old(self).valid
                },
                ContextScreen::Valid(p) => {
                    &&& final(self).invalid == old(self).invalid
                    &&& (contains_text(old(self).valid.deep_view(), p@) ==> final(self).valid
                        == old(self).valid)
                    &&& (!contains_text(old(self).valid.deep_view(), p@) ==> final(self).valid.deep_view()
                        == old(self).valid.deep_view().push(p@))
                },
            }),
    {
        match screen {
            ContextScreen::Invalid(m) => {
                self.invalid.push(m);
                proof {
                    assert(self.invalid.deep_view() =~= old(self).invalid.deep_view().push(
                        self.invalid@.last()@,
                    ));
                }
            },
            ContextScreen::Valid(p) => {
                if !contains_string(&self.valid, &p) {
                    self.valid.push(p);
                    proof {
                        assert(self.valid.deep_view() =~= old(self).valid.deep_view().push(
                            self.valid@.last()@,
                        ));
                    }
                }
            },
        }
    }

    /// The payload handed on once every candidate has been screened.
    pub fn finish(self) -> (r: ContextWipePayload)
        ensures
            r.paths == self.valid,
            r.invalid == self.invalid,
            r.source@ == "context-menu"@,
    {
        ContextWipePayload {
            paths: self.valid,
            invalid: self.invalid,
            source: "context-menu".to_owned(),
        }
    }
}

} // verus!
