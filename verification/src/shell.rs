//! Direct command execution: the verifiable pieces.
//!
//! A configured command line is a program followed by arguments, separated
//! by whitespace and never interpreted by a shell. Splitting the line and
//! normalizing the reported exit code are verified here; the actual
//! spawning, waiting and output capture are process I/O and live with the
//! driver.

use vstd::prelude::*;
use vstd::string::*;
use crate::control::{is_space, is_space_char};

verus! {

/// Result of running a command to completion.
#[derive(Debug, Clone, PartialEq, Eq)]
pub struct CommandOutput {
    /// Exit code of the process, or the sentinel when unavailable.
    pub status: i32,
    /// Captured standard output.
    pub stdout: String,
    /// Captured standard error.
    pub stderr: String,
}

/// Exit code reported when the platform gives none (the process was ended
/// by a signal).
pub const MISSING_STATUS: i32 = -1;

/// The exit code reported for a finished process: the real code when the
/// platform gives one, the sentinel otherwise.
pub fn exit_code_or_sentinel(code: Option<i32>) -> (r: i32)
    ensures
        r == match code {
            Some(c) => c,
            None => MISSING_STATUS,
        },
{
    match code {
        Some(c) => c,
        None => MISSING_STATUS,
    }
}

/// Whitespace splitting, one character at a time: `cur` is the word read
/// so far.
pub open spec fn split_ws_rec(s: Seq<char>, cur: Seq<char>) -> Seq<Seq<char>>
    decreases s.len(),
{
    if s.len() == 0 {
        if cur.len() == 0 {
            Seq::empty()
        } else {
            seq![cur]
        }
    } else if is_space_char(s[0]) {
        if cur.len() == 0 {
            split_ws_rec(s.drop_first(), Seq::empty())
        } else {
            seq![cur] + split_ws_rec(s.drop_first(), Seq::empty())
        }
    } else {
        split_ws_rec(s.drop_first(), cur.push(s[0]))
    }
}

/// The whitespace-separated words of a command line, in order.
pub open spec fn split_ws_spec(s: Seq<char>) -> Seq<Seq<char>> {
    split_ws_rec(s, Seq::empty())
}

/// Splits a command line into its program and argument words. The first
/// word is the program; an empty result means there is nothing to run.
pub fn split_command(cmd: &str) -> (r: Vec<String>)
    ensures
        r.deep_view() == split_ws_spec(cmd@),
{
    let n = cmd.unicode_len();
    let mut out: Vec<String> = Vec::new();
    let mut i: usize = 0;
    let mut start: usize = 0;
    let mut in_word: bool = false;
    proof {
        assert(cmd@.skip(0) =~= cmd@);
        assert(out.deep_view() + split_ws_rec(cmd@, Seq::empty()) =~= split_ws_rec(
            cmd@,
            Seq::empty(),
        ));
    }
    while i < n
        invariant
            i <= n,
            n == cmd@.len(),
            in_word ==> start < i,
            split_ws_spec(cmd@) == out.deep_view() + split_ws_rec(
                cmd@.skip(i as int),
                if in_word {
                    cmd@.subrange(start as int, i as int)
                } else {
                    Seq::empty()
                },
            ),
        decreases n - i,
    {
        let ghost cur: Seq<char> = if in_word {
            cmd@.subrange(start as int, i as int)
        } else {
            Seq::empty()
        };
        let c = cmd.get_char(i);
        proof {
            assert(cmd@.skip(i as int)[0] == cmd@[i as int]);
            assert(cmd@.skip(i as int).drop_first() =~= cmd@.skip(i + 1));
        }
        if is_space(c) {
            if in_word {
                let ghost out0 = out.deep_view();
                let ghost rest = split_ws_rec(cmd@.skip(i + 1), Seq::empty());
                proof {
                    assert(cur.len() > 0);
                    assert(split_ws_rec(cmd@.skip(i as int), cur) == seq![cur] + rest);
                    assert(out0 + (seq![cur] + rest) =~= (out0 + seq![cur]) + rest);
                }
                out.push(cmd.substring_char(start, i).to_owned());
                proof {
                    assert(out.deep_view() =~= out0.push(cur));
                    assert(out0.push(cur) =~= out0 + seq![cur]);
                }
                in_word = false;
            } else {
                proof {
                    assert(split_ws_rec(cmd@.skip(i as int), Seq::empty()) == split_ws_rec(
                        cmd@.skip(i + 1),
                        Seq::empty(),
                    ));
                }
            }
        } else {
            if !in_word {
                start = i;
                in_word = true;
            }
            proof {
                assert(!is_space_char(cmd@.skip(i as int)[0]));
                assert(split_ws_rec(cmd@.skip(i as int), cur) == split_ws_rec(
                    cmd@.skip(i + 1),
                    cur.push(cmd@[i as int]),
                ));
                assert(cur.push(cmd@[i as int]) =~= cmd@.subrange(start as int, i + 1));
            }
        }
        i += 1;
    }
    if in_word {
        let ghost out0 = out.deep_view();
        let ghost cur = cmd@.subrange(start as int, n as int);
        proof {
            assert(cmd@.skip(n as int).len() == 0);
            assert(cur.len() > 0);
            assert(split_ws_rec(cmd@.skip(n as int), cur) == seq![cur]);
        }
        out.push(cmd.substring_char(start, n).to_owned());
        proof {
            assert(out.deep_view() =~= out0.push(cur));
            assert(out0.push(cur) =~= out0 + seq![cur]);
            assert(out0 + seq![cur] =~= out.deep_view());
        }
    } else {
        proof {
            assert(cmd@.skip(n as int).len() == 0);
            assert(split_ws_rec(cmd@.skip(n as int), Seq::empty()) =~= Seq::<Seq<char>>::empty());
            assert(out.deep_view() + Seq::<Seq<char>>::empty() =~= out.deep_view());
        }
    }
    out
}

/// Which shell the last-resort fallback hands the command line to.
#[derive(Clone, Copy, Debug, PartialEq, Eq)]
pub enum ShellKind {
    /// `sh -c`.
    Posix,
    /// `powershell -NoProfile -Command`.
    PowerShell,
}

/// One stage of resolving and launching a configured command. Launching a
/// program can fail because it is missing or for any other reason, and
/// the fallbacks form a fixed boundary: a direct launch, then an explicit
/// probe of the PATH directories, then — only when the program cannot be
/// resolved as an executable at all — the platform shell.
#[derive(Clone, Copy, Debug, PartialEq, Eq)]
pub enum SpawnStep {
    /// Launch the program word as given.
    TryDirect,
    /// Probe the PATH directories for the program word.
    ResolvePath,
    /// Launch the executable that the probe found.
    TryResolved,
    /// Hand the whole command line to the platform shell.
    TryShell { shell: ShellKind },
    /// Report the launch error; there is no further fallback.
    Fail,
    /// A launch succeeded.
    Done,
}

/// What the driver observed of the stage it just performed.
#[derive(Clone, Copy, Debug, PartialEq, Eq)]
pub enum SpawnObservation {
    /// The launch succeeded.
    Launched,
    /// The launch failed; `not_found` reports that the program was
    /// missing, as opposed to any other error.
    LaunchFailed { not_found: bool },
    /// The probe found an executable.
    FoundOnPath,
    /// The probe found nothing.
    MissingOnPath,
}

/// The fallback boundary as one transition function: only a missing
/// program falls back from the direct launch to the PATH probe, only a
/// failed probe falls back to the shell, and a failure of the resolved or
/// shell launch is final. An observation that does not belong to the
/// current stage changes nothing.
pub open spec fn spawn_plan_spec(cur: SpawnStep, obs: SpawnObservation, windows: bool) -> SpawnStep {
    match cur {
        SpawnStep::TryDirect => match obs {
            SpawnObservation::Launched => SpawnStep::Done,
            SpawnObservation::LaunchFailed { not_found } => if not_found {
                SpawnStep::ResolvePath
            } else {
                SpawnStep::Fail
            },
            _ => cur,
        },
        SpawnStep::ResolvePath => match obs {
            SpawnObservation::FoundOnPath => SpawnStep::TryResolved,
            SpawnObservation::MissingOnPath => SpawnStep::TryShell {
                shell: if windows {
                    ShellKind::PowerShell
                } else {
                    ShellKind::Posix
                },
            },
            _ => cur,
        },
        SpawnStep::TryResolved => match obs {
            SpawnObservation::Launched => SpawnStep::Done,
            SpawnObservation::LaunchFailed { .. } => SpawnStep::Fail,
            _ => cur,
        },
        SpawnStep::TryShell { .. } => match obs {
            SpawnObservation::Launched => SpawnStep::Done,
            SpawnObservation::LaunchFailed { .. } => SpawnStep::Fail,
            _ => cur,
        },
        SpawnStep::Fail => cur,
        SpawnStep::Done => cur,
    }
}

/// Performs one transition of the launch-fallback plan.
pub fn spawn_plan_step(cur: &SpawnStep, obs: &SpawnObservation, windows: bool) -> (r: SpawnStep)
    ensures
        r == spawn_plan_spec(*cur, *obs, windows),
{
    match cur {
        SpawnStep::TryDirect => match obs {
            SpawnObservation::Launched => SpawnStep::Done,
            SpawnObservation::LaunchFailed { not_found } => if *not_found {
                SpawnStep::ResolvePath
            } else {
                SpawnStep::Fail
            },
            _ => *cur,
        },
        SpawnStep::ResolvePath => match obs {
            SpawnObservation::FoundOnPath => SpawnStep::TryResolved,
            SpawnObservation::MissingOnPath => SpawnStep::TryShell {
                shell: if windows {
                    ShellKind::PowerShell
                } else {
                    ShellKind::Posix
                },
            },
            _ => *cur,
        },
        SpawnStep::TryResolved => match obs {
            SpawnObservation::Launched => SpawnStep::Done,
            SpawnObservation::LaunchFailed { .. } => SpawnStep::Fail,
            _ => *cur,
        },
        SpawnStep::TryShell { .. } => match obs {
            SpawnObservation::Launched => SpawnStep::Done,
            SpawnObservation::LaunchFailed { .. } => SpawnStep::Fail,
            _ => *cur,
        },
        SpawnStep::Fail => *cur,
        SpawnStep::Done => *cur,
    }
}

} // verus!
