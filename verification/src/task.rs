//! Task specifications and include matching.
//!
//! A task specification is built once at startup from its configuration
//! record and the watch roots, and is read-only afterwards. Its include
//! patterns are kept expanded: the bare pattern and the pattern under each
//! root, so a match works whether the watcher reports root-relative or
//! absolute paths.

use vstd::prelude::*;
use crate::config::TaskConfig;
use crate::globs::{
    any_glob_matches, clone_strings, expand_patterns, expand_spec, rel_path, rel_path_spec,
    set_matches,
};

verus! {

/// One task as its runner sees it: name, command, restart policy, expanded
/// include patterns and the watch roots.
#[derive(Debug, Clone)]
pub struct TaskSpec {
    /// Display name, used for log prefixes only.
    pub name: String,
    /// Command line to run, a program and its arguments.
    pub run: String,
    /// Whether matched changes restart the process.
    pub restart: bool,
    /// Include patterns, expanded against the watch roots. Empty exactly
    /// when the configured watch list was empty.
    pub patterns: Vec<String>,
    /// Watch roots the observed paths are relativized against.
    pub roots: Vec<String>,
}

impl TaskSpec {
    /// Whether a path event is relevant: an empty pattern list
    /// matches everything; otherwise the path, relativized against some
    /// root, must match some well-formed include pattern.
    pub open spec fn matches_spec(self, path: Seq<char>) -> bool {
        self.patterns@.len() == 0 || exists|i: int|
            0 <= i < self.roots@.len()
                && (#[trigger] rel_path_spec(path, self.roots.deep_view()[i]) matches Some(rel)
                && any_glob_matches(self.patterns.deep_view(), rel))
    }

    /// Builds the specification for one configured task: the restart flag
    /// defaults to on, and the include patterns are expanded against every
    /// root.
    pub fn from_config(cfg: &TaskConfig, roots: &Vec<String>) -> (r: TaskSpec)
        ensures
            r.name@ == cfg.name@,
            r.run@ == cfg.run@,
            r.restart == match cfg.restart {
                Some(b) => b,
                None => true,
            },
            r.patterns.deep_view() == expand_spec(cfg.watch.deep_view(), roots.deep_view()),
            r.roots.deep_view() == roots.deep_view(),
    {
        TaskSpec {
            name: cfg.name.clone(),
            run: cfg.run.clone(),
            restart: match cfg.restart {
                Some(b) => b,
                None => true,
            },
            patterns: expand_patterns(&cfg.watch, roots),
            roots: clone_strings(roots),
        }
    }

    /// The specification one runner works from, as derived from one
    /// configuration record: name and command taken over, restart
    /// defaulted to on, include patterns expanded against every root.
    pub open spec fn derived_from(self, cfg: TaskConfig, roots: Seq<Seq<char>>) -> bool {
        &&& self.name@ == cfg.name@
        &&& self.run@ == cfg.run@
        &&& self.restart == match cfg.restart {
            Some(b) => b,
            None => true,
        }
        &&& self.patterns.deep_view() == expand_spec(cfg.watch.deep_view(), roots)
        &&& self.roots.deep_view() == roots
    }

    /// Tests one path event against the include rules.
    pub fn matches_path(&self, path: &str) -> (r: bool)
        ensures
            r == self.matches_spec(path@),
    {
        if self.patterns.len() == 0 {
            return true;
        }
        let mut i: usize = 0;
        while i < self.roots.len()
            invariant
                i <= self.roots@.len(),
                forall|k: int|
                    0 <= k < i ==> (#[trigger] rel_path_spec(path@, self.roots.deep_view()[k])
                        matches Some(rel) ==> !any_glob_matches(self.patterns.deep_view(), rel)),
            decreases self.roots@.len() - i,
        {
            match rel_path(path, self.roots[i].as_str()) {
                Some(rel) => {
                    if set_matches(&self.patterns, rel) {
                        proof {
                            assert(self.roots.deep_view()[i as int] == self.roots@[i as int]@);
                            assert(rel_path_spec(path@, self.roots.deep_view()[i as int])
                                matches Some(rr) && any_glob_matches(
                                self.patterns.deep_view(),
                                rr,
                            ));
                        }
                        return true;
                    }
                },
                None => {},
            }
            i += 1;
        }
        false
    }
}

/// Builds the task registry: one specification per configured task, in
/// configuration order, each derived as `TaskSpec::from_config` derives
/// it.
pub fn build_task_specs(tasks: &Vec<TaskConfig>, roots: &Vec<String>) -> (r: Vec<TaskSpec>)
    ensures
        r@.len() == tasks@.len(),
        forall|i: int|
            0 <= i < tasks@.len() ==> (#[trigger] r@[i]).derived_from(
                tasks@[i],
                roots.deep_view(),
            ),
{
    let mut r: Vec<TaskSpec> = Vec::new();
    let mut i: usize = 0;
    while i < tasks.len()
        invariant
            i <= tasks@.len(),
            r@.len() == i,
            forall|k: int|
                0 <= k < i ==> (#[trigger] r@[k]).derived_from(tasks@[k], roots.deep_view()),
        decreases tasks@.len() - i,
    {
        r.push(TaskSpec::from_config(&tasks[i], roots));
        i += 1;
    }
    r
}

} // verus!
