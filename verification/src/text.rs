//! Verified text building blocks: decimal rendering of counters and
//! newline-joining of failure lists, used by pass labels and outcome
//! messages.

use vstd::prelude::*;
use vstd::string::StringExecFns;

verus! {

/// The character for one decimal digit value.
pub open spec fn dec_digit(d: int) -> char
    recommends
        0 <= d < 10,
{
    if d == 0 {
        '0'
    } else if d == 1 {
        '1'
    } else if d == 2 {
        '2'
    } else if d == 3 {
        '3'
    } else if d == 4 {
        '4'
    } else if d == 5 {
        '5'
    } else if d == 6 {
        '6'
    } else if d == 7 {
        '7'
    } else if d == 8 {
        '8'
    } else {
        '9'
    }
}

/// The usual decimal rendering of a non-negative integer, without leading
/// zeros (except for the number zero itself).
pub open spec fn dec_str(n: int) -> Seq<char>
    recommends
        n >= 0,
    decreases n,
{
    if n < 10 {
        seq![dec_digit(n)]
    } else {
        dec_str(n / 10).push(dec_digit(n % 10))
    }
}

fn digit_str(d: u64) -> (s: &'static str)
    requires
        d < 10,
    ensures
        s@ == seq![dec_digit(d as int)],
{
    let s: &'static str = if d == 0 {
        "0"
    } else if d == 1 {
        "1"
    } else if d == 2 {
        "2"
    } else if d == 3 {
        "3"
    } else if d == 4 {
        "4"
    } else if d == 5 {
        "5"
    } else if d == 6 {
        "6"
    } else if d == 7 {
        "7"
    } else if d == 8 {
        "8"
    } else {
        "9"
    };
    proof {
        reveal_strlit("0");
        reveal_strlit("1");
        reveal_strlit("2");
        reveal_strlit("3");
        reveal_strlit("4");
        reveal_strlit("5");
        reveal_strlit("6");
        reveal_strlit("7");
        reveal_strlit("8");
        reveal_strlit("9");
        assert(s@ =~= seq![dec_digit(d as int)]);
    }
    s
}

/// Renders a counter in decimal.
pub fn u64_to_dec(n: u64) -> (s: String)
    ensures
        s@ == dec_str(n as int),
    decreases n,
{
    if n < 10 {
        digit_str(n).to_owned()
    } else {
        let mut s = u64_to_dec(n / 10);
        s.append(digit_str(n % 10));
        proof {
            assert(dec_str((n / 10) as int).push(dec_digit((n % 10) as int)) =~= dec_str(
                (n / 10) as int,
            ) + seq![dec_digit((n % 10) as int)]);
        }
        s
    }
}

/// How many occurrences of `c` the text holds.
pub open spec fn char_count(s: Seq<char>, c: char) -> int
    decreases s.len(),
{
    if s.len() == 0 {
        0
    } else {
        char_count(s.drop_last(), c) + if s.last() == c {
            1int
        } else {
            0int
        }
    }
}

proof fn lemma_char_count_le(s: Seq<char>, c: char)
    ensures
        0 <= char_count(s, c) <= s.len(),
    decreases s.len(),
{
    if s.len() > 0 {
        lemma_char_count_le(s.drop_last(), c);
    }
}

/// Counts the occurrences of `c` in the text.
pub fn count_char(s: &str, c: char) -> (n: usize)
    ensures
        n == char_count(s@, c),
{
    let len = s.unicode_len();
    let mut n: usize = 0;
    let mut i: usize = 0;
    while i < len
        invariant
            i <= len,
            len == s@.len(),
            n <= i,
            n == char_count(s@.take(i as int), c),
        decreases len - i,
    {
        let ch = s.get_char(i);
        proof {
            assert(s@.take(i as int + 1).drop_last() =~= s@.take(i as int));
            assert(s@.take(i as int + 1).last() == s@[i as int]);
        }
        if ch == c {
            n = n + 1;
        }
        i = i + 1;
    }
    proof {
        assert(s@.take(len as int) =~= s@);
    }
    n
}

/// How many lines the text holds, counting as the standard line iterator
/// does: one line per newline, plus a final unterminated line if the text
/// does not end with a newline; empty text holds none.
pub open spec fn line_count(s: Seq<char>) -> int {
    if s.len() == 0 {
        0
    } else if s.last() == '\n' {
        char_count(s, '\n')
    } else {
        char_count(s, '\n') + 1
    }
}

/// Counts the lines of the text, as `line_count` says.
pub fn count_lines(s: &str) -> (n: usize)
    ensures
        n == line_count(s@),
{
    let len = s.unicode_len();
    if len == 0 {
        return 0;
    }
    let nl = count_char(s, '\n');
    if s.get_char(len - 1) == '\n' {
        nl
    } else {
        proof {
            lemma_char_count_le(s@, '\n');
            assert(char_count(s@, '\n') < s@.len()) by {
                assert(s@.drop_last().push(s@.last()) =~= s@);
                lemma_char_count_le(s@.drop_last(), '\n');
            }
        }
        nl + 1
    }
}

/// The warning shown before erasing the listed files (one path per line).
pub open spec fn file_confirmation_message(
    path: Seq<char>,
    algorithm: Seq<char>,
    description: Seq<char>,
) -> Seq<char> {
    "You are about to permanently erase "@ + dec_str(line_count(path))
        + " file(s) using:\n\nAlgorithm: "@ + algorithm + "\nDescription: "@ + description
        + "\n\nTHIS ACTION CANNOT BE UNDONE!\n\nAre you absolutely sure you want to continue?"@
}

/// The warning shown before wiping a drive's free space.
pub open spec fn drive_confirmation_message(
    algorithm: Seq<char>,
    description: Seq<char>,
) -> Seq<char> {
    "You are about to wipe all free space on the selected drive using:\n\nAlgorithm: "@ + algorithm
        + "\nDescription: "@ + description
        + "\n\nTHIS ACTION CANNOT BE UNDONE!\n\nAre you absolutely sure you want to continue?"@
}

/// Builds the blocking warning shown before a wipe request is carried out:
/// a multi-line `path` is a list of files to erase (counted in the text), a
/// single-line one means a free-space wipe of the selected drive.
pub fn confirmation_message(path: &str, algorithm: &str, description: &str) -> (m: String)
    ensures
        char_count(path@, '\n') > 0 ==> m@ == file_confirmation_message(
            path@,
            algorithm@,
            description@,
        ),
        char_count(path@, '\n') == 0 ==> m@ == drive_confirmation_message(
            algorithm@,
            description@,
        ),
{
    if count_char(path, '\n') > 0 {
        let mut m = "You are about to permanently erase ".to_owned();
        let count = u64_to_dec(count_lines(path) as u64);
        m.append(count.as_str());
        m.append(" file(s) using:\n\nAlgorithm: ");
        m.append(algorithm);
        m.append("\nDescription: ");
        m.append(description);
        m.append("\n\nTHIS ACTION CANNOT BE UNDONE!\n\nAre you absolutely sure you want to continue?");
        m
    } else {
        let mut m = "You are about to wipe all free space on the selected drive using:\n\nAlgorithm: ".to_owned();
        m.append(algorithm);
        m.append("\nDescription: ");
        m.append(description);
        m.append("\n\nTHIS ACTION CANNOT BE UNDONE!\n\nAre you absolutely sure you want to continue?");
        m
    }
}

/// The given lines joined with a single newline between consecutive lines.
pub open spec fn join_lines(lines: Seq<Seq<char>>) -> Seq<char>
    decreases lines.len(),
{
    if lines.len() == 0 {
        Seq::empty()
    } else if lines.len() == 1 {
        lines[0]
    } else {
        lines[0] + seq!['\n'] + join_lines(lines.drop_first())
    }
}

fn join_from(lines: &Vec<String>, i: usize) -> (s: String)
    requires
        i <= lines@.len(),
    ensures
        s@ == join_lines(lines.deep_view().skip(i as int)),
    decreases lines@.len() - i,
{
    if i == lines.len() {
        proof {
            assert(lines.deep_view().skip(i as int) =~= Seq::<Seq<char>>::empty());
        }
        String::new()
    } else if i + 1 == lines.len() {
        proof {
            assert(lines.deep_view().skip(i as int) =~= seq![lines.deep_view()[i as int]]);
        }
        lines[i].clone()
    } else {
        let mut s = lines[i].clone();
        s.append("\n");
        let rest = join_from(lines, i + 1);
        let joined = s.concat(rest.as_str());
        proof {
            reveal_strlit("\n");
            let tail = lines.deep_view().skip(i as int);
            assert(tail.drop_first() =~= lines.deep_view().skip(i as int + 1));
            assert(tail[0] == lines.deep_view()[i as int]);
            assert(joined@ =~= tail[0] + seq!['\n'] + join_lines(tail.drop_first()));
        }
        joined
    }
}

/// Joins the given lines with a single newline between consecutive lines.
pub fn join_with_newlines(lines: &Vec<String>) -> (s: String)
    ensures
        s@ == join_lines(lines.deep_view()),
{
    let s = join_from(lines, 0);
    proof {
        assert(lines.deep_view().skip(0) =~= lines.deep_view());
    }
    s
}

} // verus!
