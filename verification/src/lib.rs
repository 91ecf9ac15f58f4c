//! Core logic of a file watcher that runs configured tasks and restarts
//! them when watched paths change.
//!
//! The crate holds the decision logic of the watcher: parsing operator
//! commands, glob-based include and ignore filtering, the per-task debounce
//! and process-lifecycle state machine, and the derivation of task
//! specifications from configuration. The surrounding process plumbing
//! (filesystem notifications, broadcast channels, spawning and killing of
//! child processes, stdin) drives these functions from outside.

pub mod config;
pub mod control;
pub mod globs;
pub mod runner;
pub mod shell;
pub mod style;
pub mod task;
