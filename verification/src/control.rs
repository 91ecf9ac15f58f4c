//! Operator control commands.
//!
//! A line typed by the operator is trimmed of surrounding whitespace and
//! compared case-insensitively against the recognized command words.
//! Unrecognized or empty lines are ignored.

use vstd::prelude::*;
use vstd::string::*;

verus! {

/// A recognized operator command.
#[derive(Clone, Copy, Debug, PartialEq, Eq)]
pub enum ControlCommand {
    /// `rs` or `restart`: kill the held child (if any) and spawn a fresh one,
    /// regardless of the task's restart policy.
    Restart,
    /// `status`: report whether a child process is currently held.
    Status,
    /// `quit`, `q` or `exit`: stop every task runner and the whole process.
    Quit,
    /// Anything else, including an empty line: no effect.
    Ignored,
}

/// The Unicode white-space characters: what trimming an operator line and
/// splitting a command line treat as separators.
pub open spec fn is_space_char(c: char) -> bool {
    let u = c as u32;
    (9 <= u && u <= 13) || u == 32 || u == 0x85 || u == 0xA0 || u == 0x1680 || (0x2000 <= u && u
        <= 0x200A) || u == 0x2028 || u == 0x2029 || u == 0x202F || u == 0x205F || u == 0x3000
}

/// The line with leading and trailing whitespace removed.
pub open spec fn trim_spec(s: Seq<char>) -> Seq<char>
    decreases s.len(),
{
    if s.len() > 0 && is_space_char(s[0]) {
        trim_spec(s.subrange(1, s.len() as int))
    } else if s.len() > 0 && is_space_char(s[s.len() - 1]) {
        trim_spec(s.subrange(0, s.len() - 1))
    } else {
        s
    }
}

/// Case-insensitive match of one input character against one character of a
/// command word; the command words use only lower-case ASCII letters.
pub open spec fn char_matches_lower(c: char, k: char) -> bool {
    c == k || ('A' <= c && c <= 'Z' && c as u32 == k as u32 - 32)
}

/// Case-insensitive equality of an input against a command word.
pub open spec fn word_matches(s: Seq<char>, word: Seq<char>) -> bool {
    s.len() == word.len() && forall|i: int| 0 <= i < s.len() ==> char_matches_lower(s[i], #[trigger] word[i])
}

/// What a line of operator input means.
pub open spec fn parse_spec(line: Seq<char>) -> ControlCommand {
    let t = trim_spec(line);
    if word_matches(t, "rs"@) || word_matches(t, "restart"@) {
        ControlCommand::Restart
    } else if word_matches(t, "status"@) {
        ControlCommand::Status
    } else if word_matches(t, "quit"@) || word_matches(t, "q"@) || word_matches(t, "exit"@) {
        ControlCommand::Quit
    } else {
        ControlCommand::Ignored
    }
}

proof fn lemma_trim_of_trimmed(s: Seq<char>)
    requires
        s.len() > 0 ==> !is_space_char(s[0]),
        s.len() > 0 ==> !is_space_char(s[s.len() - 1]),
    ensures
        trim_spec(s) == s,
{
}

/// Characterizes `trim_spec` by the first and last non-whitespace positions,
/// which is how the executable code finds the trimmed slice.
proof fn lemma_trim_bounds(s: Seq<char>, start: int, end: int)
    requires
        0 <= start <= end <= s.len(),
        forall|k: int| 0 <= k < start ==> is_space_char(s[k]),
        forall|k: int| end <= k < s.len() ==> is_space_char(s[k]),
        start < end ==> !is_space_char(s[start]),
        start < end ==> !is_space_char(s[end - 1]),
        start == end ==> end == s.len(),
        start == end ==> start == 0 || is_space_char(s[start - 1]),
    ensures
        trim_spec(s) == s.subrange(start, end),
    decreases s.len(),
{
    if s.len() == 0 {
        assert(trim_spec(s) == s);
        assert(s.subrange(start, end) =~= s);
    } else if start > 0 {
        let s1 = s.subrange(1, s.len() as int);
        lemma_trim_bounds(s1, start - 1, end - 1);
        assert(s1.subrange(start - 1, end - 1) =~= s.subrange(start, end));
    } else if end < s.len() {
        if start == end {
            // all characters are whitespace, yet end < s.len() contradicts
            // the requirement that start == end forces end == s.len()
            assert(false);
        }
        let s1 = s.subrange(0, s.len() - 1);
        assert(is_space_char(s[s.len() - 1]));
        assert(!is_space_char(s[0]));
        lemma_trim_bounds(s1, start, end);
        assert(s1.subrange(start, end) =~= s.subrange(start, end));
    } else {
        if start == end {
            // start == 0 and end == s.len() > 0 gives a contradiction with
            // start == end
            assert(false);
        }
        assert(!is_space_char(s[0]));
        assert(!is_space_char(s[s.len() - 1]));
        lemma_trim_of_trimmed(s);
        assert(s.subrange(start, end) =~= s);
    }
}

pub(crate) fn is_space(c: char) -> (r: bool)
    ensures
        r == is_space_char(c),
{
    let u = c as u32;
    (9 <= u && u <= 13) || u == 32 || u == 0x85 || u == 0xA0 || u == 0x1680 || (0x2000 <= u && u
        <= 0x200A) || u == 0x2028 || u == 0x2029 || u == 0x202F || u == 0x205F || u == 0x3000
}

/// Case-insensitive comparison of `line[start..end]` against a command word
/// made of lower-case ASCII letters.
fn word_eq(line: &str, start: usize, end: usize, word: &str) -> (r: bool)
    requires
        start <= end <= line@.len(),
    ensures
        r == word_matches(line@.subrange(start as int, end as int), word@),
{
    let n = word.unicode_len();
    if end - start != n {
        return false;
    }
    let mut i: usize = 0;
    while i < n
        invariant
            start <= end <= line@.len(),
            end - start == n,
            n == word@.len(),
            i <= n,
            forall|k: int| 0 <= k < i ==> char_matches_lower(
                line@.subrange(start as int, end as int)[k],
                #[trigger] word@[k],
            ),
        decreases n - i,
    {
        let c = line.get_char(start + i);
        let k = word.get_char(i);
        let cu = c as u32;
        let ku = k as u32;
        let ok = c == k || ('A' <= c && c <= 'Z' && ku >= 32 && cu == ku - 32);
        if !ok {
            assert(!char_matches_lower(
                line@.subrange(start as int, end as int)[i as int],
                word@[i as int],
            ));
            return false;
        }
        assert(char_matches_lower(
            line@.subrange(start as int, end as int)[i as int],
            word@[i as int],
        ));
        i += 1;
    }
    true
}

/// Parses a line of operator input.
///
/// The line is trimmed of surrounding whitespace and compared
/// case-insensitively against the recognized command words.
pub fn parse_control(line: &str) -> (r: ControlCommand)
    ensures
        r == parse_spec(line@),
{
    let n = line.unicode_len();
    let mut start: usize = 0;
    while start < n && is_space(line.get_char(start))
        invariant
            start <= n,
            n == line@.len(),
            forall|k: int| 0 <= k < start ==> is_space_char(line@[k]),
        decreases n - start,
    {
        start += 1;
    }
    let mut end: usize = n;
    while end > start && is_space(line.get_char(end - 1))
        invariant
            start <= end <= n,
            n == line@.len(),
            forall|k: int| end <= k < n ==> is_space_char(line@[k]),
            start == n || !is_space_char(line@[start as int]),
            start < end || end == n,
        decreases end,
    {
        end -= 1;
    }
    proof {
        lemma_trim_bounds(line@, start as int, end as int);
    }
    if word_eq(line, start, end, "rs") || word_eq(line, start, end, "restart") {
        ControlCommand::Restart
    } else if word_eq(line, start, end, "status") {
        ControlCommand::Status
    } else if word_eq(line, start, end, "quit") || word_eq(line, start, end, "q")
        || word_eq(line, start, end, "exit") {
        ControlCommand::Quit
    } else {
        ControlCommand::Ignored
    }
}

/// True when the trimmed line is empty, in which case the input reader
/// broadcasts nothing.
pub fn line_is_blank(line: &str) -> (r: bool)
    ensures
        r == (trim_spec(line@).len() == 0),
{
    let n = line.unicode_len();
    let mut start: usize = 0;
    while start < n && is_space(line.get_char(start))
        invariant
            start <= n,
            n == line@.len(),
            forall|k: int| 0 <= k < start ==> is_space_char(line@[k]),
        decreases n - start,
    {
        start += 1;
    }
    if start == n {
        proof {
            lemma_trim_bounds(line@, start as int, start as int);
            assert(line@.subrange(start as int, start as int).len() == 0);
        }
        true
    } else {
        proof {
            lemma_trim_nonblank(line@, start as int);
        }
        false
    }
}

/// A line with a non-whitespace character does not trim to the empty line.
proof fn lemma_trim_nonblank(s: Seq<char>, j: int)
    requires
        0 <= j < s.len(),
        !is_space_char(s[j]),
    ensures
        trim_spec(s).len() > 0,
    decreases s.len(),
{
    if s.len() > 0 && is_space_char(s[0]) {
        lemma_trim_nonblank(s.subrange(1, s.len() as int), j - 1);
    } else if s.len() > 0 && is_space_char(s[s.len() - 1]) {
        lemma_trim_nonblank(s.subrange(0, s.len() - 1), j);
    }
}

} // verus!

