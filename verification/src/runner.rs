//! The per-task runner: a state machine over bus events, timer ticks and
//! process outcomes.
//!
//! One runner owns one task's child-process slot. The surrounding driver
//! waits on the change bus, the control bus and the debounce timer, hands
//! each occurrence to [`step`], and performs the returned action: killing
//! the held child, spawning the command, printing a status line, or
//! stopping. The outcomes of kills and spawns come back as events of their
//! own, so the machine — and everything proved about it — covers the whole
//! kill-then-spawn exchange.

use vstd::prelude::*;
use crate::control::{parse_spec, parse_control, ControlCommand};
use crate::task::TaskSpec;

verus! {

/// Where the runner stands in a kill-then-spawn exchange.
#[derive(Clone, Copy, Debug, PartialEq, Eq)]
pub enum RunnerPhase {
    /// Listening on the buses and the debounce timer.
    Ready,
    /// A kill was requested; its bounded wait has not finished yet.
    Killing,
    /// A spawn was requested; its outcome has not arrived yet.
    Spawning,
}

/// The mutable state of one task runner.
#[derive(Clone, Copy, Debug, PartialEq, Eq)]
pub struct RunnerState {
    /// Whether a child-process handle is currently held.
    pub running: bool,
    /// While debouncing: the arrival time of the most recent matching
    /// change event, in milliseconds.
    pub pending: Option<u64>,
    /// Progress of an in-flight kill-then-spawn exchange.
    pub phase: RunnerPhase,
    /// The runner has stopped and reacts to nothing further.
    pub done: bool,
}

/// One occurrence a task runner reacts to.
#[derive(Debug, Clone, PartialEq, Eq)]
pub enum RunnerEvent {
    /// A surviving path event from the change bus, stamped with its
    /// arrival time in milliseconds.
    FileChanged { path: String, now_ms: u64 },
    /// The debounce timer fired.
    DebounceElapsed { now_ms: u64 },
    /// A line arrived on the control bus.
    Control { line: String },
    /// The bounded wait after a kill finished; `timed_out` reports that
    /// the child had still not exited when the wait gave up.
    KillFinished { timed_out: bool },
    /// The requested spawn finished; `ok` reports success.
    SpawnFinished { ok: bool },
    /// The change bus dropped `skipped` messages for this subscriber.
    FileBusLagged { skipped: u64 },
    /// The control bus dropped `skipped` messages for this subscriber.
    ControlBusLagged { skipped: u64 },
    /// The change bus is closed for good.
    FileBusClosed,
    /// The control bus is closed for good.
    ControlBusClosed,
}

/// What the driver must do after a step.
#[derive(Clone, Copy, Debug, PartialEq, Eq)]
pub enum RunnerAction {
    /// Nothing.
    Nothing,
    /// Kill the held child. When `bounded`, wait for its exit at most the
    /// kill timeout and then give up on it; otherwise await the kill
    /// itself. Either way, report back with `KillFinished`.
    StartKill { bounded: bool },
    /// Spawn the task's command and report back with `SpawnFinished`.
    StartSpawn,
    /// Report the task as `running` or `stopped`.
    PrintStatus { running: bool },
    /// Report `skipped` missed messages; processing continues.
    ReportLag { skipped: u64 },
    /// The runner is finished; kill the held child when `kill` is set.
    Stop { kill: bool },
}

/// The state a runner starts from, and its unconditional initial spawn
/// attempt (made regardless of the restart policy).
pub open spec fn initial_spec() -> (RunnerState, RunnerAction) {
    (
        RunnerState {
            running: false,
            pending: None,
            phase: RunnerPhase::Spawning,
            done: false,
        },
        RunnerAction::StartSpawn,
    )
}

/// The transition relation of a task runner, as one total function from
/// state and occurrence to successor state and requested action.
pub open spec fn step_spec(
    task: TaskSpec,
    debounce_ms: u64,
    st: RunnerState,
    ev: RunnerEvent,
) -> (RunnerState, RunnerAction) {
    if st.done {
        (st, RunnerAction::Nothing)
    } else {
        match ev {
            RunnerEvent::FileChanged { path, now_ms } => {
                if st.phase is Ready && task.matches_spec(path@) {
                    (
                        RunnerState { pending: Some(now_ms), ..st },
                        RunnerAction::Nothing,
                    )
                } else {
                    (st, RunnerAction::Nothing)
                }
            },
            RunnerEvent::DebounceElapsed { now_ms } => {
                if st.phase is Ready && (st.pending matches Some(last) && now_ms >= last
                    + debounce_ms) {
                    let cleared = RunnerState { pending: None, ..st };
                    if task.restart {
                        if st.running {
                            (
                                RunnerState { phase: RunnerPhase::Killing, ..cleared },
                                RunnerAction::StartKill { bounded: true },
                            )
                        } else {
                            (
                                RunnerState { phase: RunnerPhase::Spawning, ..cleared },
                                RunnerAction::StartSpawn,
                            )
                        }
                    } else {
                        (cleared, RunnerAction::Nothing)
                    }
                } else {
                    (st, RunnerAction::Nothing)
                }
            },
            RunnerEvent::Control { line } => {
                match parse_spec(line@) {
                    ControlCommand::Restart => {
                        if st.phase is Ready {
                            if st.running {
                                (
                                    RunnerState { phase: RunnerPhase::Killing, ..st },
                                    RunnerAction::StartKill { bounded: false },
                                )
                            } else {
                                (
                                    RunnerState { phase: RunnerPhase::Spawning, ..st },
                                    RunnerAction::StartSpawn,
                                )
                            }
                        } else {
                            (st, RunnerAction::Nothing)
                        }
                    },
                    ControlCommand::Status => (
                        st,
                        RunnerAction::PrintStatus { running: st.running },
                    ),
                    ControlCommand::Quit => (
                        RunnerState { done: true, ..st },
                        RunnerAction::Stop { kill: st.running },
                    ),
                    ControlCommand::Ignored => (st, RunnerAction::Nothing),
                }
            },
            RunnerEvent::KillFinished { timed_out } => {
                if st.phase is Killing {
                    // the replacement is spawned whether or not the old
                    // child exited within the bound; a timeout only gets
                    // reported by the driver
                    (
                        RunnerState {
                            running: false,
                            phase: RunnerPhase::Spawning,
                            ..st
                        },
                        RunnerAction::StartSpawn,
                    )
                } else {
                    (st, RunnerAction::Nothing)
                }
            },
            RunnerEvent::SpawnFinished { ok } => {
                if st.phase is Spawning {
                    (
                        RunnerState { running: ok, phase: RunnerPhase::Ready, ..st },
                        RunnerAction::Nothing,
                    )
                } else {
                    (st, RunnerAction::Nothing)
                }
            },
            RunnerEvent::FileBusLagged { skipped } => (
                st,
                RunnerAction::ReportLag { skipped },
            ),
            RunnerEvent::ControlBusLagged { skipped } => (
                st,
                RunnerAction::ReportLag { skipped },
            ),
            RunnerEvent::FileBusClosed => (
                RunnerState { done: true, ..st },
                RunnerAction::Stop { kill: st.running },
            ),
            RunnerEvent::ControlBusClosed => (
                RunnerState { done: true, ..st },
                RunnerAction::Stop { kill: st.running },
            ),
        }
    }
}

impl RunnerState {
    /// The state a runner starts from.
    pub fn initial() -> (r: (RunnerState, RunnerAction))
        ensures
            r == initial_spec(),
    {
        (
            RunnerState {
                running: false,
                pending: None,
                phase: RunnerPhase::Spawning,
                done: false,
            },
            RunnerAction::StartSpawn,
        )
    }
}

/// Performs one transition of the runner state machine.
pub fn step(task: &TaskSpec, debounce_ms: u64, st: &RunnerState, ev: &RunnerEvent) -> (r: (
    RunnerState,
    RunnerAction,
))
    ensures
        r == step_spec(*task, debounce_ms, *st, *ev),
{
    if st.done {
        return (*st, RunnerAction::Nothing);
    }
    match ev {
        RunnerEvent::FileChanged { path, now_ms } => {
            if matches!(st.phase, RunnerPhase::Ready) && task.matches_path(path.as_str()) {
                (RunnerState { pending: Some(*now_ms), ..*st }, RunnerAction::Nothing)
            } else {
                (*st, RunnerAction::Nothing)
            }
        },
        RunnerEvent::DebounceElapsed { now_ms } => {
            let fire = match st.pending {
                Some(last) => matches!(st.phase, RunnerPhase::Ready) && *now_ms >= last
                    && *now_ms - last >= debounce_ms,
                None => false,
            };
            if fire {
                let cleared = RunnerState { pending: None, ..*st };
                if task.restart {
                    if st.running {
                        (
                            RunnerState { phase: RunnerPhase::Killing, ..cleared },
                            RunnerAction::StartKill { bounded: true },
                        )
                    } else {
                        (
                            RunnerState { phase: RunnerPhase::Spawning, ..cleared },
                            RunnerAction::StartSpawn,
                        )
                    }
                } else {
                    (cleared, RunnerAction::Nothing)
                }
            } else {
                (*st, RunnerAction::Nothing)
            }
        },
        RunnerEvent::Control { line } => {
            match parse_control(line.as_str()) {
                ControlCommand::Restart => {
                    if matches!(st.phase, RunnerPhase::Ready) {
                        if st.running {
                            (
                                RunnerState { phase: RunnerPhase::Killing, ..*st },
                                RunnerAction::StartKill { bounded: false },
                            )
                        } else {
                            (
                                RunnerState { phase: RunnerPhase::Spawning, ..*st },
                                RunnerAction::StartSpawn,
                            )
                        }
                    } else {
                        (*st, RunnerAction::Nothing)
                    }
                },
                ControlCommand::Status => (
                    *st,
                    RunnerAction::PrintStatus { running: st.running },
                ),
                ControlCommand::Quit => (
                    RunnerState { done: true, ..*st },
                    RunnerAction::Stop { kill: st.running },
                ),
                ControlCommand::Ignored => (*st, RunnerAction::Nothing),
            }
        },
        RunnerEvent::KillFinished { timed_out: _ } => {
            if matches!(st.phase, RunnerPhase::Killing) {
                (
                    RunnerState { running: false, phase: RunnerPhase::Spawning, ..*st },
                    RunnerAction::StartSpawn,
                )
            } else {
                (*st, RunnerAction::Nothing)
            }
        },
        RunnerEvent::SpawnFinished { ok } => {
            if matches!(st.phase, RunnerPhase::Spawning) {
                (
                    RunnerState { running: *ok, phase: RunnerPhase::Ready, ..*st },
                    RunnerAction::Nothing,
                )
            } else {
                (*st, RunnerAction::Nothing)
            }
        },
        RunnerEvent::FileBusLagged { skipped } => (
            *st,
            RunnerAction::ReportLag { skipped: *skipped },
        ),
        RunnerEvent::ControlBusLagged { skipped } => (
            *st,
            RunnerAction::ReportLag { skipped: *skipped },
        ),
        RunnerEvent::FileBusClosed => (
            RunnerState { done: true, ..*st },
            RunnerAction::Stop { kill: st.running },
        ),
        RunnerEvent::ControlBusClosed => (
            RunnerState { done: true, ..*st },
            RunnerAction::Stop { kill: st.running },
        ),
    }
}

/// The instant the debounce wait started at `last_ms` ends, saturating at
/// the largest representable time; the driver arms its timer for this
/// instant.
pub fn debounce_deadline(last_ms: u64, debounce_ms: u64) -> (r: u64)
    ensures
        r == if last_ms + debounce_ms <= u64::MAX {
            last_ms + debounce_ms
        } else {
            u64::MAX as int
        },
{
    if last_ms <= u64::MAX - debounce_ms {
        last_ms + debounce_ms
    } else {
        u64::MAX
    }
}

/// The state after a whole trace of occurrences.
pub open spec fn run_state(
    task: TaskSpec,
    debounce_ms: u64,
    st: RunnerState,
    evs: Seq<RunnerEvent>,
) -> RunnerState
    decreases evs.len(),
{
    if evs.len() == 0 {
        st
    } else {
        run_state(task, debounce_ms, step_spec(task, debounce_ms, st, evs[0]).0, evs.drop_first())
    }
}

/// How many restart initiations (kill or spawn requests) a trace causes.
pub open spec fn restart_initiations(
    task: TaskSpec,
    debounce_ms: u64,
    st: RunnerState,
    evs: Seq<RunnerEvent>,
) -> nat
    decreases evs.len(),
{
    if evs.len() == 0 {
        0
    } else {
        let (st1, act) = step_spec(task, debounce_ms, st, evs[0]);
        (if act is StartKill || act is StartSpawn {
            1nat
        } else {
            0nat
        }) + restart_initiations(task, debounce_ms, st1, evs.drop_first())
    }
}

/// No spawn is requested while a handle is held: the one handle-safety
/// invariant of the machine.
pub open spec fn handle_safe(st: RunnerState) -> bool {
    st.phase is Spawning ==> !st.running
}

/// The initial state holds no handle and is handle-safe.
pub proof fn lemma_initial_state()
    ensures
        handle_safe(initial_spec().0),
        !initial_spec().0.running,
{
}

/// At most one child-process handle is held per task at any instant: every
/// step preserves handle safety, a spawn is only requested from a state
/// that holds no handle, and a kill is only requested while one is held —
/// so no two spawns happen without an intervening kill (or a failed spawn)
/// in between.
pub proof fn lemma_single_handle(
    task: TaskSpec,
    debounce_ms: u64,
    st: RunnerState,
    ev: RunnerEvent,
)
    requires
        handle_safe(st),
    ensures
        handle_safe(step_spec(task, debounce_ms, st, ev).0),
        step_spec(task, debounce_ms, st, ev).1 is StartSpawn ==> !step_spec(
            task,
            debounce_ms,
            st,
            ev,
        ).0.running,
        step_spec(task, debounce_ms, st, ev).1 is StartKill ==> st.running,
{
}

/// Handle safety holds at every instant of every run: it holds at the
/// start and every trace preserves it.
pub proof fn lemma_handle_safe_trace(
    task: TaskSpec,
    debounce_ms: u64,
    st: RunnerState,
    evs: Seq<RunnerEvent>,
)
    requires
        handle_safe(st),
    ensures
        handle_safe(run_state(task, debounce_ms, st, evs)),
    decreases evs.len(),
{
    if evs.len() > 0 {
        lemma_single_handle(task, debounce_ms, st, evs[0]);
        lemma_handle_safe_trace(
            task,
            debounce_ms,
            step_spec(task, debounce_ms, st, evs[0]).0,
            evs.drop_first(),
        );
    }
}

/// A runner that has stopped reacts to nothing: after `quit` (or a closed
/// bus) no event changes the state or requests an action.
pub proof fn lemma_done_is_final(
    task: TaskSpec,
    debounce_ms: u64,
    st: RunnerState,
    ev: RunnerEvent,
)
    requires
        st.done,
    ensures
        step_spec(task, debounce_ms, st, ev) == (st, RunnerAction::Nothing),
{
}

/// Every event of the trace is a `status` command.
pub open spec fn all_status(evs: Seq<RunnerEvent>) -> bool {
    forall|i: int|
        0 <= i < evs.len() ==> ((#[trigger] evs[i]) matches RunnerEvent::Control { line }
            && parse_spec(line@) is Status)
}

/// Sending `status` never mutates the runner state, however many times it
/// is sent.
pub proof fn lemma_status_idempotent(
    task: TaskSpec,
    debounce_ms: u64,
    st: RunnerState,
    evs: Seq<RunnerEvent>,
)
    requires
        all_status(evs),
    ensures
        run_state(task, debounce_ms, st, evs) == st,
    decreases evs.len(),
{
    if evs.len() > 0 {
        assert(evs[0] matches RunnerEvent::Control { line } && parse_spec(line@) is Status);
        assert(step_spec(task, debounce_ms, st, evs[0]).0 == st);
        assert(all_status(evs.drop_first()));
        lemma_status_idempotent(task, debounce_ms, st, evs.drop_first());
    }
}

/// Every event of the trace is a change event that the task's include
/// rules do not match.
pub open spec fn all_unmatched(task: TaskSpec, evs: Seq<RunnerEvent>) -> bool {
    forall|i: int|
        0 <= i < evs.len() ==> (#[trigger] evs[i]) is FileChanged && !task.matches_spec(
            evs[i]->path@,
        )
}

/// Change events that do not match a task's include rules leave that task
/// completely untouched: no state change and no restart.
pub proof fn lemma_unmatched_events(
    task: TaskSpec,
    debounce_ms: u64,
    st: RunnerState,
    evs: Seq<RunnerEvent>,
)
    requires
        all_unmatched(task, evs),
    ensures
        run_state(task, debounce_ms, st, evs) == st,
        restart_initiations(task, debounce_ms, st, evs) == 0,
    decreases evs.len(),
{
    if evs.len() > 0 {
        assert(evs[0] is FileChanged && !task.matches_spec(evs[0]->path@));
        assert(step_spec(task, debounce_ms, st, evs[0]) == (st, RunnerAction::Nothing));
        assert(all_unmatched(task, evs.drop_first()));
        lemma_unmatched_events(task, debounce_ms, st, evs.drop_first());
    }
}

/// Every event of the trace comes from the change bus or the debounce
/// timer — no operator command among them.
pub open spec fn file_driven(evs: Seq<RunnerEvent>) -> bool {
    forall|i: int|
        0 <= i < evs.len() ==> (#[trigger] evs[i]) is FileChanged || evs[i] is DebounceElapsed
}

/// With `restart` off, no file event ever causes a kill or a spawn; only
/// an explicit restart command can. File events and timer ticks leave the
/// process slot, the phase and the liveness of the runner unchanged.
pub proof fn lemma_restart_policy_gate(
    task: TaskSpec,
    debounce_ms: u64,
    st: RunnerState,
    evs: Seq<RunnerEvent>,
)
    requires
        !task.restart,
        file_driven(evs),
    ensures
        restart_initiations(task, debounce_ms, st, evs) == 0,
        run_state(task, debounce_ms, st, evs).running == st.running,
        run_state(task, debounce_ms, st, evs).phase == st.phase,
        run_state(task, debounce_ms, st, evs).done == st.done,
    decreases evs.len(),
{
    if evs.len() > 0 {
        assert(evs[0] is FileChanged || evs[0] is DebounceElapsed);
        let (st1, act) = step_spec(task, debounce_ms, st, evs[0]);
        assert(!(act is StartKill || act is StartSpawn));
        assert(st1.running == st.running && st1.phase == st.phase && st1.done == st.done);
        assert(file_driven(evs.drop_first()));
        lemma_restart_policy_gate(task, debounce_ms, st1, evs.drop_first());
    }
}

/// A burst: matching change events only, in arrival order, each arriving
/// within less than the debounce window of the one before it.
pub open spec fn matching_burst(task: TaskSpec, debounce_ms: u64, evs: Seq<RunnerEvent>) -> bool {
    &&& forall|i: int| 0 <= i < evs.len() ==> (#[trigger] evs[i]) is FileChanged
    &&& forall|i: int|
        0 <= i < evs.len() ==> task.matches_spec((#[trigger] evs[i])->path@)
    &&& forall|i: int|
        0 <= i < evs.len() - 1 ==> (#[trigger] evs[i])->FileChanged_now_ms <= evs[i
            + 1]->FileChanged_now_ms
    &&& forall|i: int|
        0 <= i < evs.len() - 1 ==> evs[i + 1]->FileChanged_now_ms < (#[trigger] evs[i])->FileChanged_now_ms
            + debounce_ms
}

/// Exactly one restart per burst, no earlier than one debounce window
/// after the burst's last event: while the burst runs, nothing is killed
/// or spawned and the runner only tracks the time of the latest matching
/// event; a timer that fires earlier than one window after that event does
/// nothing; the timer firing at or after it initiates exactly one restart
/// (a kill first when a child is held, else a spawn directly).
#[verifier::rlimit(100)]
pub proof fn lemma_debounce_burst(
    task: TaskSpec,
    debounce_ms: u64,
    st: RunnerState,
    evs: Seq<RunnerEvent>,
)
    requires
        task.restart,
        !st.done,
        st.phase is Ready,
        evs.len() > 0,
        matching_burst(task, debounce_ms, evs),
    ensures
        restart_initiations(task, debounce_ms, st, evs) == 0,
        run_state(task, debounce_ms, st, evs) == (RunnerState {
            pending: Some(evs.last()->FileChanged_now_ms),
            ..st
        }),
        forall|now: u64|
            now < evs.last()->FileChanged_now_ms + debounce_ms ==> #[trigger] step_spec(
                task,
                debounce_ms,
                run_state(task, debounce_ms, st, evs),
                RunnerEvent::DebounceElapsed { now_ms: now },
            ) == (run_state(task, debounce_ms, st, evs), RunnerAction::Nothing),
        forall|now: u64|
            now >= evs.last()->FileChanged_now_ms + debounce_ms ==> ({
                let fired = #[trigger] step_spec(
                    task,
                    debounce_ms,
                    run_state(task, debounce_ms, st, evs),
                    RunnerEvent::DebounceElapsed { now_ms: now },
                );
                &&& fired.0.pending is None
                &&& (fired.1 is StartKill || fired.1 is StartSpawn)
                &&& (fired.1 is StartKill <==> st.running)
            }),
    decreases evs.len(),
{
    assert(evs[0] is FileChanged && task.matches_spec(evs[0]->path@));
    let st1 = RunnerState { pending: Some(evs[0]->FileChanged_now_ms), ..st };
    assert(step_spec(task, debounce_ms, st, evs[0]) == (st1, RunnerAction::Nothing));
    assert(restart_initiations(task, debounce_ms, st, evs) == restart_initiations(
        task,
        debounce_ms,
        st1,
        evs.drop_first(),
    ));
    if evs.len() == 1 {
        assert(run_state(task, debounce_ms, st, evs) == st1);
        assert(restart_initiations(task, debounce_ms, st1, evs.drop_first()) == 0);
    } else {
        let rest = evs.drop_first();
        assert(matching_burst(task, debounce_ms, rest)) by {
            assert forall|i: int| 0 <= i < rest.len() implies (#[trigger] rest[i]) is FileChanged
                && task.matches_spec(rest[i]->path@) by {
                assert(rest[i] == evs[i + 1]);
            }
            assert forall|i: int| 0 <= i < rest.len() - 1 implies (#[trigger] rest[i])->FileChanged_now_ms
                <= rest[i + 1]->FileChanged_now_ms && rest[i + 1]->FileChanged_now_ms < rest[i]->FileChanged_now_ms
                + debounce_ms by {
                assert(rest[i] == evs[i + 1]);
                assert(rest[i + 1] == evs[i + 2]);
            }
        }
        lemma_debounce_burst(task, debounce_ms, st1, rest);
        assert(rest.last() == evs.last());
    }
}

} // verus!
