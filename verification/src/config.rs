//! Configuration records.
//!
//! A configuration holds an optional global section (debounce override,
//! ignore patterns) and a list of task records. Reading and decoding the
//! configuration file happens outside the library; the records arrive here
//! as plain values, and the library derives the effective settings from
//! them.

use vstd::prelude::*;

verus! {

/// Debounce window used when neither the command line nor the
/// configuration overrides it, in milliseconds.
pub const DEFAULT_DEBOUNCE_MS: u64 = 30;

/// Wait bound for a graceful kill before the old process is abandoned, in
/// milliseconds.
pub const DEFAULT_KILL_TIMEOUT_MS: u64 = 2000;

/// The global configuration section.
#[derive(Debug, Clone)]
pub struct GlobalConfig {
    /// Debounce window override, in milliseconds.
    pub debounce: Option<u64>,
    /// Glob patterns whose matches are discarded before any task sees them.
    pub ignore: Option<Vec<String>>,
}

/// One configured task.
#[derive(Debug, Clone)]
pub struct TaskConfig {
    /// Display name, used for log prefixes only.
    pub name: String,
    /// Include glob patterns; an empty list matches every path.
    pub watch: Vec<String>,
    /// Command line to run, a program and its arguments.
    pub run: String,
    /// Whether matched changes restart the process; absent means `true`.
    pub restart: Option<bool>,
}

/// A whole configuration.
#[derive(Debug, Clone)]
pub struct Config {
    pub global: Option<GlobalConfig>,
    pub task: Option<Vec<TaskConfig>>,
}

impl Config {
    /// The debounce override of the global section, if any.
    pub open spec fn debounce_override(self) -> Option<u64> {
        match self.global {
            Some(g) => g.debounce,
            None => None,
        }
    }

    /// The configured ignore patterns, or none.
    pub open spec fn ignore_list(self) -> Seq<Seq<char>> {
        match self.global {
            Some(g) => match g.ignore {
                Some(v) => v.deep_view(),
                None => Seq::empty(),
            },
            None => Seq::empty(),
        }
    }

    /// The effective debounce window: the global section wins over the
    /// value given on the command line.
    pub fn effective_debounce(&self, fallback: u64) -> (r: u64)
        ensures
            r == match self.debounce_override() {
                Some(d) => d,
                None => fallback,
            },
    {
        match &self.global {
            Some(g) => match g.debounce {
                Some(d) => d,
                None => fallback,
            },
            None => fallback,
        }
    }

    /// The configured ignore patterns as a list of their own.
    pub fn ignore_patterns(&self) -> (r: Vec<String>)
        ensures
            r.deep_view() == self.ignore_list(),
    {
        match &self.global {
            Some(g) => match &g.ignore {
                Some(v) => crate::globs::clone_strings(v),
                None => Vec::new(),
            },
            None => Vec::new(),
        }
    }

    /// How many tasks are configured; watch mode refuses to start on zero.
    pub fn task_count(&self) -> (r: usize)
        ensures
            r == match self.task {
                Some(t) => t@.len(),
                None => 0,
            },
    {
        match &self.task {
            Some(t) => t.len(),
            None => 0,
        }
    }
}

} // verus!
