//! Log prefixes.
//!
//! Every diagnostic line of the watcher carries a prefix naming the
//! program, and task-scoped lines also carry the task's name. Styling is
//! supplied by the `colored` crate behind trusted wrappers; whether any
//! escape sequences are emitted depends on the terminal and environment,
//! so the contracts promise only that the painted text itself survives.

use vstd::prelude::*;
use vstd::string::*;
use colored::Colorize;

verus! {

/// `needle` occurs in `hay` starting at position `k`.
pub open spec fn contains_at(hay: Seq<char>, needle: Seq<char>, k: int) -> bool {
    0 <= k && k + needle.len() <= hay.len() && hay.subrange(k, k + needle.len() as int) == needle
}

/// `needle` occurs somewhere in `hay`.
pub open spec fn contains_seq(hay: Seq<char>, needle: Seq<char>) -> bool {
    exists|k: int| contains_at(hay, needle, k)
}

/// No escape character, so styling cannot tear the text apart.
pub open spec fn escape_free(s: Seq<char>) -> bool {
    forall|i: int| 0 <= i < s.len() ==> s[i] != '\x1B'
}

proof fn lemma_contains_extend(a: Seq<char>, b: Seq<char>, needle: Seq<char>, k: int)
    requires
        contains_at(a, needle, k),
    ensures
        contains_at(a + b, needle, k),
{
    assert((a + b).subrange(k, k + needle.len() as int) =~= a.subrange(
        k,
        k + needle.len() as int,
    ));
}

proof fn lemma_contains_shift(a: Seq<char>, b: Seq<char>, needle: Seq<char>, k: int)
    requires
        contains_at(b, needle, k),
    ensures
        contains_at(a + b, needle, k + a.len()),
{
    assert((a + b).subrange(k + a.len(), k + a.len() + needle.len() as int) =~= b.subrange(
        k,
        k + needle.len() as int,
    ));
}

/// Relies on `colored::Colorize::cyan`, `colored::Styles`' `bold` and
/// `ColoredString`'s `Display` (through `ToString`): the output is the
/// input text, surrounded by style escape sequences when the environment
/// enables them and bare otherwise; styling inserts sequences around and
/// inside the text but never removes characters of it.
#[verifier::external_body]
fn paint_cyan_bold(s: &str) -> (r: String)
    ensures
        r@.len() >= s@.len(),
        escape_free(s@) ==> contains_seq(r@, s@),
{
    s.cyan().bold().to_string()
}

/// Relies on `colored::Colorize::black`, `bold` and `ColoredString`'s
/// `Display` (through `ToString`), as `paint_cyan_bold` does.
#[verifier::external_body]
fn paint_black_bold(s: &str) -> (r: String)
    ensures
        r@.len() >= s@.len(),
        escape_free(s@) ==> contains_seq(r@, s@),
{
    s.black().bold().to_string()
}

/// The program-wide log prefix: the program's tag, possibly styled.
pub fn pref() -> (r: String)
    ensures
        contains_seq(r@, "[anymon]"@),
{
    proof {
        reveal_strlit("[anymon]");
        assert(escape_free("[anymon]"@));
    }
    paint_cyan_bold("[anymon]")
}

/// The task-scoped log prefix: the program's tag, then the task's name in
/// brackets, both possibly styled, ending in a colon. The bracketed name
/// survives styling whenever it holds no escape character itself.
pub fn pref_task(name: &str) -> (r: String)
    ensures
        contains_seq(r@, "[anymon]"@),
        escape_free(name@) ==> contains_seq(r@, seq!['['] + name@ + seq![']']),
        r@.len() > 0,
        r@[r@.len() - 1] == ':',
{
    proof {
        reveal_strlit("[anymon]");
        reveal_strlit("[");
        reveal_strlit("]");
        reveal_strlit(" ");
        reveal_strlit(":");
        assert(escape_free("[anymon]"@));
    }
    let left = paint_cyan_bold("[anymon]");
    let mut bracketed = String::from_str("[");
    bracketed.append(name);
    bracketed.append("]");
    proof {
        assert(bracketed@ =~= seq!['['] + name@ + seq![']']);
    }
    let right = paint_black_bold(bracketed.as_str());
    let joined = left.concat(" ").concat(right.as_str()).concat(":");
    proof {
        let l = left@;
        let mid = l + " "@;
        let withr = mid + right@;
        let full = withr + ":"@;
        assert(joined@ == full);
        assert(":"@.len() == 1 && ":"@[0] == ':');
        assert(full[full.len() - 1] == ':');
        let k0 = choose|k: int| contains_at(l, "[anymon]"@, k);
        lemma_contains_extend(l, " "@, "[anymon]"@, k0);
        lemma_contains_extend(mid, right@, "[anymon]"@, k0);
        lemma_contains_extend(withr, ":"@, "[anymon]"@, k0);
        if escape_free(name@) {
            assert(escape_free(bracketed@));
            let k1 = choose|k: int| contains_at(right@, bracketed@, k);
            lemma_contains_shift(mid, right@, bracketed@, k1);
            lemma_contains_extend(withr, ":"@, bracketed@, k1 + mid.len());
        }
    }
    joined
}

} // verus!
