use anymon::config::TaskConfig;
use anymon::runner::{debounce_deadline, step, RunnerAction, RunnerEvent, RunnerPhase, RunnerState};
use anymon::task::{build_task_specs, TaskSpec};

fn txt_task(restart: bool) -> TaskSpec {
    let cfg = TaskConfig {
        name: "t".to_string(),
        watch: vec!["*.txt".to_string()],
        run: "echo ok".to_string(),
        restart: Some(restart),
    };
    TaskSpec::from_config(&cfg, &vec!["/w".to_string()])
}

fn ready(running: bool) -> RunnerState {
    RunnerState { running, pending: None, phase: RunnerPhase::Ready, done: false }
}

fn file_ev(path: &str, now_ms: u64) -> RunnerEvent {
    RunnerEvent::FileChanged { path: path.to_string(), now_ms }
}

fn ctrl(line: &str) -> RunnerEvent {
    RunnerEvent::Control { line: line.to_string() }
}

#[test]
fn initial_state_spawns_once() {
    let (st, act) = RunnerState::initial();
    assert_eq!(act, RunnerAction::StartSpawn);
    assert!(!st.running);
    assert_eq!(st.phase, RunnerPhase::Spawning);
    let task = txt_task(true);
    let (st, act) = step(&task, 30, &st, &RunnerEvent::SpawnFinished { ok: true });
    assert_eq!(act, RunnerAction::Nothing);
    assert!(st.running);
    assert_eq!(st.phase, RunnerPhase::Ready);
}

#[test]
fn burst_of_three_restarts_once_after_quiet_window() {
    // debounce 50ms, matching events at t=0, 20, 40; the one restart fires
    // with the tick at t=90 (50ms after the last event) and not before
    let task = txt_task(true);
    let st = ready(true);
    let (st, act) = step(&task, 50, &st, &file_ev("/w/a.txt", 0));
    assert_eq!(act, RunnerAction::Nothing);
    assert_eq!(st.pending, Some(0));
    let (st, act) = step(&task, 50, &st, &file_ev("/w/b.txt", 20));
    assert_eq!(act, RunnerAction::Nothing);
    assert_eq!(st.pending, Some(20));
    let (st, act) = step(&task, 50, &st, &file_ev("/w/a.txt", 40));
    assert_eq!(act, RunnerAction::Nothing);
    assert_eq!(st.pending, Some(40));
    // a timer armed for the first event fires stale at t=50: nothing
    let (st, act) = step(&task, 50, &st, &RunnerEvent::DebounceElapsed { now_ms: 50 });
    assert_eq!(act, RunnerAction::Nothing);
    assert_eq!(st.pending, Some(40));
    assert_eq!(debounce_deadline(40, 50), 90);
    let (st, act) = step(&task, 50, &st, &RunnerEvent::DebounceElapsed { now_ms: 90 });
    assert_eq!(act, RunnerAction::StartKill { bounded: true });
    assert_eq!(st.pending, None);
    assert_eq!(st.phase, RunnerPhase::Killing);
    // exactly one restart: the exchange finishes and the runner is idle again
    let (st, act) = step(&task, 50, &st, &RunnerEvent::KillFinished { timed_out: false });
    assert_eq!(act, RunnerAction::StartSpawn);
    assert!(!st.running);
    let (st, act) = step(&task, 50, &st, &RunnerEvent::SpawnFinished { ok: true });
    assert_eq!(act, RunnerAction::Nothing);
    assert_eq!(st, ready(true));
}

#[test]
fn zero_debounce_fires_on_first_tick() {
    // debounce 0: the two-phase wait still runs once, but any tick at or
    // after the event completes it
    let task = txt_task(true);
    let st = ready(false);
    let (st, act) = step(&task, 0, &st, &file_ev("/w/a.txt", 5));
    assert_eq!(act, RunnerAction::Nothing);
    assert_eq!(st.pending, Some(5));
    let (st, act) = step(&task, 0, &st, &RunnerEvent::DebounceElapsed { now_ms: 5 });
    assert_eq!(act, RunnerAction::StartSpawn);
    assert_eq!(st.pending, None);
}

#[test]
fn nonmatching_and_ignored_paths_change_nothing() {
    let task = txt_task(true);
    let st = ready(true);
    let (st1, act) = step(&task, 50, &st, &file_ev("/w/a.rs", 10));
    assert_eq!(act, RunnerAction::Nothing);
    assert_eq!(st1, st);
    let (st2, act) = step(&task, 50, &st, &file_ev("/other/a.txt", 10));
    assert_eq!(act, RunnerAction::Nothing);
    assert_eq!(st2, st);
}

#[test]
fn restart_off_never_reacts_to_files() {
    let task = txt_task(false);
    let st = ready(true);
    let (st, act) = step(&task, 50, &st, &file_ev("/w/a.txt", 0));
    assert_eq!(act, RunnerAction::Nothing);
    let (st, act) = step(&task, 50, &st, &RunnerEvent::DebounceElapsed { now_ms: 50 });
    // the debounce consumed the event but the policy forbids any restart
    assert_eq!(act, RunnerAction::Nothing);
    assert_eq!(st, ready(true));
}

#[test]
fn control_restart_bypasses_policy() {
    // operator types `rs` while restart = false: the process restarts once
    let task = txt_task(false);
    let st = ready(true);
    let (st, act) = step(&task, 50, &st, &ctrl("rs"));
    assert_eq!(act, RunnerAction::StartKill { bounded: false });
    assert_eq!(st.phase, RunnerPhase::Killing);
    let (st, act) = step(&task, 50, &st, &RunnerEvent::KillFinished { timed_out: false });
    assert_eq!(act, RunnerAction::StartSpawn);
    let (st, act) = step(&task, 50, &st, &RunnerEvent::SpawnFinished { ok: true });
    assert_eq!(act, RunnerAction::Nothing);
    assert_eq!(st, ready(true));
}

#[test]
fn control_restart_without_child_just_spawns() {
    let task = txt_task(true);
    let st = ready(false);
    let (st, act) = step(&task, 50, &st, &ctrl("restart"));
    assert_eq!(act, RunnerAction::StartSpawn);
    assert_eq!(st.phase, RunnerPhase::Spawning);
    assert!(!st.running);
}

#[test]
fn kill_timeout_abandons_and_spawns_anyway() {
    // a held child that ignores termination: after the bounded wait the
    // runner proceeds to the replacement without waiting further
    let task = txt_task(true);
    let st = RunnerState { running: true, pending: Some(0), phase: RunnerPhase::Ready, done: false };
    let (st, act) = step(&task, 100, &st, &RunnerEvent::DebounceElapsed { now_ms: 100 });
    assert_eq!(act, RunnerAction::StartKill { bounded: true });
    let (st, act) = step(&task, 100, &st, &RunnerEvent::KillFinished { timed_out: true });
    assert_eq!(act, RunnerAction::StartSpawn);
    assert!(!st.running);
    assert_eq!(st.phase, RunnerPhase::Spawning);
}

#[test]
fn status_reports_without_mutating() {
    let task = txt_task(true);
    let st = ready(true);
    for _ in 0..3 {
        let (st1, act) = step(&task, 50, &st, &ctrl("status"));
        assert_eq!(act, RunnerAction::PrintStatus { running: true });
        assert_eq!(st1, st);
    }
    let stopped = ready(false);
    let (st1, act) = step(&task, 50, &stopped, &ctrl("status"));
    assert_eq!(act, RunnerAction::PrintStatus { running: false });
    assert_eq!(st1, stopped);
}

#[test]
fn quit_stops_runner_for_good() {
    let task = txt_task(true);
    let st = ready(true);
    let (st, act) = step(&task, 50, &st, &ctrl("quit"));
    assert_eq!(act, RunnerAction::Stop { kill: true });
    assert!(st.done);
    // nothing reacts after the stop
    let (st1, act) = step(&task, 50, &st, &file_ev("/w/a.txt", 5));
    assert_eq!(act, RunnerAction::Nothing);
    assert_eq!(st1, st);
    let (st1, act) = step(&task, 50, &st, &ctrl("rs"));
    assert_eq!(act, RunnerAction::Nothing);
    assert_eq!(st1, st);
}

#[test]
fn closed_bus_stops_cleanly() {
    let task = txt_task(true);
    let st = ready(false);
    let (st1, act) = step(&task, 50, &st, &RunnerEvent::FileBusClosed);
    assert_eq!(act, RunnerAction::Stop { kill: false });
    assert!(st1.done);
}

#[test]
fn lag_is_reported_and_survived() {
    let task = txt_task(true);
    let st = ready(true);
    let (st1, act) = step(&task, 50, &st, &RunnerEvent::FileBusLagged { skipped: 7 });
    assert_eq!(act, RunnerAction::ReportLag { skipped: 7 });
    assert_eq!(st1, st);
}

#[test]
fn unknown_control_lines_are_ignored() {
    let task = txt_task(true);
    let st = ready(true);
    let (st1, act) = step(&task, 50, &st, &ctrl("reload"));
    assert_eq!(act, RunnerAction::Nothing);
    assert_eq!(st1, st);
    let (st1, act) = step(&task, 50, &st, &ctrl(""));
    assert_eq!(act, RunnerAction::Nothing);
    assert_eq!(st1, st);
}

#[test]
fn registry_carries_config_over() {
    let tasks = vec![
        TaskConfig {
            name: "a".to_string(),
            watch: vec!["*.rs".to_string()],
            run: "cargo check".to_string(),
            restart: None,
        },
        TaskConfig {
            name: "b".to_string(),
            watch: Vec::new(),
            run: "make".to_string(),
            restart: Some(false),
        },
    ];
    let specs = build_task_specs(&tasks, &vec!["/w".to_string()]);
    assert_eq!(specs.len(), 2);
    assert_eq!(specs[0].name, "a");
    assert!(specs[0].restart);
    let expanded: Vec<&str> = specs[0].patterns.iter().map(|s| s.as_str()).collect();
    assert_eq!(expanded, vec!["*.rs", "/w/*.rs"]);
    assert!(!specs[1].restart);
    // an empty watch list matches every path
    assert!(specs[1].matches_path("/anywhere/at/all"));
}
