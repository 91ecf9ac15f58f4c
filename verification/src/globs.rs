//! Glob patterns: compilation, matching, expansion against watch roots, and
//! the global ignore filter.
//!
//! Pattern syntax and matching are supplied by the `globset` crate behind one
//! trusted wrapper; everything around it — expanding a pattern list against
//! the watch roots, relativizing a path, testing a whole pattern set — is
//! verified.

use vstd::prelude::*;
use vstd::string::*;

verus! {

/// Whether `pattern` compiles through to a matcher.
pub uninterp spec fn glob_compiles(pattern: Seq<char>) -> bool;

/// Whether the glob `pattern` matches `path`.
pub uninterp spec fn glob_accepts(pattern: Seq<char>, path: Seq<char>) -> bool;

/// Relies on `globset::Glob::new` and `globset::GlobSetBuilder::build`
/// (compilation, deterministic in the pattern; `build` reports an
/// oversized compiled pattern as an error rather than failing later), and
/// on `globset::GlobSet::is_match` (matching, deterministic in the pattern
/// and the path). Returns `None` exactly when the pattern does not compile
/// through to a matcher.
#[verifier::external_body]
pub(crate) fn glob_match(pattern: &str, path: &str) -> (r: Option<bool>)
    ensures
        r is Some <==> glob_compiles(pattern@),
        r matches Some(m) ==> m == glob_accepts(pattern@, path@),
{
    match globset::Glob::new(pattern) {
        Ok(g) => {
            let mut builder = globset::GlobSetBuilder::new();
            builder.add(g);
            match builder.build() {
                Ok(set) => Some(set.is_match(path)),
                Err(_) => None,
            }
        },
        Err(_) => None,
    }
}

/// Whether `pattern` is a well-formed glob pattern, for reporting bad
/// configuration entries.
pub fn pattern_compiles(pattern: &str) -> (r: bool)
    ensures
        r == glob_compiles(pattern@),
{
    let probe = glob_match(pattern, "");
    probe.is_some()
}

/// Some pattern of the set is well formed and matches `path`.
pub open spec fn any_glob_matches(patterns: Seq<Seq<char>>, path: Seq<char>) -> bool {
    exists|j: int|
        0 <= j < patterns.len() && glob_compiles(#[trigger] patterns[j])
            && glob_accepts(patterns[j], path)
}

/// Tests a path against every pattern of a set; malformed patterns never
/// match.
pub fn set_matches(patterns: &Vec<String>, path: &str) -> (r: bool)
    ensures
        r == any_glob_matches(patterns.deep_view(), path@),
{
    let mut j: usize = 0;
    while j < patterns.len()
        invariant
            j <= patterns.len(),
            forall|k: int|
                0 <= k < j ==> !(glob_compiles(#[trigger] patterns.deep_view()[k])
                    && glob_accepts(patterns.deep_view()[k], path@)),
        decreases patterns.len() - j,
    {
        match glob_match(patterns[j].as_str(), path) {
            Some(true) => {
                assert(glob_compiles(patterns.deep_view()[j as int])
                    && glob_accepts(patterns.deep_view()[j as int], path@));
                return true;
            },
            _ => {},
        }
        j += 1;
    }
    false
}

/// A pattern placed under a watch root: `root`, a separator, the pattern.
pub open spec fn joined(root: Seq<char>, pattern: Seq<char>) -> Seq<char> {
    root + seq!['/'] + pattern
}

fn join_pattern(root: &str, pattern: &str) -> (r: String)
    ensures
        r@ == joined(root@, pattern@),
{
    proof {
        reveal_strlit("/");
    }
    let mut s = root.to_owned();
    s.append("/");
    s.append(pattern);
    proof {
        assert(s@ =~= joined(root@, pattern@));
    }
    s
}

/// One pattern expanded: the bare pattern, then the pattern under each root,
/// so that both root-relative and absolute path forms match.
pub open spec fn expansions_of(pattern: Seq<char>, roots: Seq<Seq<char>>) -> Seq<Seq<char>> {
    seq![pattern] + roots.map_values(|r: Seq<char>| joined(r, pattern))
}

/// A whole pattern list expanded against the watch roots, in order.
pub open spec fn expand_spec(patterns: Seq<Seq<char>>, roots: Seq<Seq<char>>) -> Seq<Seq<char>>
    decreases patterns.len(),
{
    if patterns.len() == 0 {
        Seq::empty()
    } else {
        expansions_of(patterns[0], roots) + expand_spec(patterns.drop_first(), roots)
    }
}

proof fn lemma_expand_snoc(patterns: Seq<Seq<char>>, p: Seq<char>, roots: Seq<Seq<char>>)
    ensures
        expand_spec(patterns.push(p), roots) == expand_spec(patterns, roots) + expansions_of(
            p,
            roots,
        ),
    decreases patterns.len(),
{
    if patterns.len() == 0 {
        assert(patterns.push(p).drop_first() =~= patterns);
        assert(expand_spec(patterns.push(p), roots) =~= expand_spec(patterns, roots)
            + expansions_of(p, roots));
    } else {
        assert(patterns.push(p).drop_first() =~= patterns.drop_first().push(p));
        lemma_expand_snoc(patterns.drop_first(), p, roots);
        assert(expand_spec(patterns.push(p), roots) =~= expand_spec(patterns, roots)
            + expansions_of(p, roots));
    }
}

/// Expands every pattern against every root: for each pattern, the bare form
/// followed by the root-joined form for each root.
pub fn expand_patterns(patterns: &Vec<String>, roots: &Vec<String>) -> (r: Vec<String>)
    ensures
        r.deep_view() == expand_spec(patterns.deep_view(), roots.deep_view()),
{
    let mut r: Vec<String> = Vec::new();
    let mut i: usize = 0;
    while i < patterns.len()
        invariant
            i <= patterns.len(),
            r.deep_view() == expand_spec(
                patterns.deep_view().take(i as int),
                roots.deep_view(),
            ),
        decreases patterns.len() - i,
    {
        let ghost prefix = patterns.deep_view().take(i as int);
        let mut j: usize = 0;
        let ghost r0 = r.deep_view();
        r.push(patterns[i].clone());
        proof {
            assert(r.deep_view() =~= r0.push(patterns.deep_view()[i as int]));
            assert(roots.deep_view().take(0).map_values(
                |rt: Seq<char>| joined(rt, patterns.deep_view()[i as int]),
            ) =~= Seq::<Seq<char>>::empty());
            assert(r.deep_view() =~= expand_spec(prefix, roots.deep_view()) + seq![
                patterns.deep_view()[i as int],
            ] + roots.deep_view().take(0).map_values(
                |rt: Seq<char>| joined(rt, patterns.deep_view()[i as int]),
            ));
        }
        while j < roots.len()
            invariant
                i < patterns.len(),
                j <= roots.len(),
                r.deep_view() == expand_spec(prefix, roots.deep_view()) + seq![
                    patterns.deep_view()[i as int],
                ] + roots.deep_view().take(j as int).map_values(
                    |rt: Seq<char>| joined(rt, patterns.deep_view()[i as int]),
                ),
            decreases roots.len() - j,
        {
            let ghost r1 = r.deep_view();
            r.push(join_pattern(roots[j].as_str(), patterns[i].as_str()));
            proof {
                assert(r.deep_view() =~= r1.push(
                    joined(roots.deep_view()[j as int], patterns.deep_view()[i as int]),
                ));
                assert(roots.deep_view().take(j + 1).map_values(
                    |rt: Seq<char>| joined(rt, patterns.deep_view()[i as int]),
                ) =~= roots.deep_view().take(j as int).map_values(
                    |rt: Seq<char>| joined(rt, patterns.deep_view()[i as int]),
                ).push(joined(roots.deep_view()[j as int], patterns.deep_view()[i as int])));
                assert(r.deep_view() =~= expand_spec(prefix, roots.deep_view()) + seq![
                    patterns.deep_view()[i as int],
                ] + roots.deep_view().take(j + 1).map_values(
                    |rt: Seq<char>| joined(rt, patterns.deep_view()[i as int]),
                ));
            }
            j += 1;
        }
        proof {
            assert(roots.deep_view().take(roots.deep_view().len() as int) =~= roots.deep_view());
            lemma_expand_snoc(prefix, patterns.deep_view()[i as int], roots.deep_view());
            assert(prefix.push(patterns.deep_view()[i as int]) =~= patterns.deep_view().take(
                i + 1,
            ));
            assert(r.deep_view() =~= expand_spec(
                patterns.deep_view().take(i + 1),
                roots.deep_view(),
            ));
        }
        i += 1;
    }
    proof {
        assert(patterns.deep_view().take(patterns.deep_view().len() as int)
            =~= patterns.deep_view());
    }
    r
}

/// Copies a list of strings, preserving every element.
pub fn clone_strings(v: &Vec<String>) -> (r: Vec<String>)
    ensures
        r.deep_view() == v.deep_view(),
{
    let mut r: Vec<String> = Vec::new();
    let mut i: usize = 0;
    while i < v.len()
        invariant
            i <= v.len(),
            r.deep_view() == v.deep_view().take(i as int),
        decreases v.len() - i,
    {
        let ghost r0 = r.deep_view();
        r.push(v[i].clone());
        proof {
            assert(r.deep_view() =~= r0.push(v.deep_view()[i as int]));
            assert(r.deep_view() =~= v.deep_view().take(i + 1));
        }
        i += 1;
    }
    proof {
        assert(v.deep_view().take(v.deep_view().len() as int) =~= v.deep_view());
    }
    r
}

/// The path relative to a watch root: the root itself relativizes to the
/// empty path, a path under the root loses the root and the separator, any
/// other path is not under this root. Roots are written without a trailing
/// separator.
pub open spec fn rel_path_spec(path: Seq<char>, root: Seq<char>) -> Option<Seq<char>> {
    if path == root {
        Some(Seq::empty())
    } else if path.len() > root.len() && path.subrange(0, root.len() as int) == root && path[root.len() as int]
        == '/' {
        Some(path.subrange(root.len() as int + 1, path.len() as int))
    } else {
        None
    }
}

/// Relativizes `path` against `root` when `path` lies under it.
pub fn rel_path<'a>(path: &'a str, root: &str) -> (r: Option<&'a str>)
    ensures
        r is Some <==> rel_path_spec(path@, root@) is Some,
        r matches Some(s) ==> rel_path_spec(path@, root@) == Some(s@),
{
    let n = path.unicode_len();
    let m = root.unicode_len();
    if n < m {
        return None;
    }
    let mut k: usize = 0;
    while k < m
        invariant
            m <= n,
            n == path@.len(),
            m == root@.len(),
            k <= m,
            forall|t: int| 0 <= t < k ==> path@[t] == #[trigger] root@[t],
        decreases m - k,
    {
        if path.get_char(k) != root.get_char(k) {
            proof {
                if path@ == root@ {
                    assert(path@[k as int] == root@[k as int]);
                }
                if path@.subrange(0, m as int) == root@ {
                    assert(path@.subrange(0, m as int)[k as int] == root@[k as int]);
                }
            }
            return None;
        }
        k += 1;
    }
    if n == m {
        proof {
            assert(path@ =~= root@);
        }
        let empty = path.substring_char(n, n);
        proof {
            assert(empty@ =~= Seq::<char>::empty());
        }
        return Some(empty);
    }
    proof {
        assert(path@.subrange(0, m as int) =~= root@);
        assert(path@ != root@);
    }
    if path.get_char(m) != '/' {
        return None;
    }
    let rest = path.substring_char(m + 1, n);
    Some(rest)
}

/// The ignore filter shared by all tasks: a path that any of its patterns
/// matches is dropped before fan-out, so no task ever observes it. An empty
/// pattern list never discards anything.
pub struct IgnoreFilter {
    pub patterns: Vec<String>,
}

impl IgnoreFilter {
    /// Whether the filter discards `path`.
    pub open spec fn ignores(self, path: Seq<char>) -> bool {
        any_glob_matches(self.patterns.deep_view(), path)
    }

    /// Builds the filter from the configured ignore patterns, expanded
    /// against every watch root.
    pub fn new(patterns: &Vec<String>, roots: &Vec<String>) -> (r: Self)
        ensures
            r.patterns.deep_view() == expand_spec(patterns.deep_view(), roots.deep_view()),
    {
        IgnoreFilter { patterns: expand_patterns(patterns, roots) }
    }

    /// Tests a raw event path; `true` means the event is dropped before it
    /// reaches any task.
    pub fn is_ignored(&self, path: &str) -> (r: bool)
        ensures
            r == self.ignores(path@),
            self.patterns.deep_view().len() == 0 ==> r == false,
    {
        set_matches(&self.patterns, path)
    }

    /// An empty ignore list never discards anything.
    pub proof fn lemma_empty_never_ignores(self, path: Seq<char>)
        requires
            self.patterns.deep_view().len() == 0,
        ensures
            !self.ignores(path),
    {
    }
}

} // verus!
