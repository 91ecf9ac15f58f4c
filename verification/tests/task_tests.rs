use anymon::config::TaskConfig;
use anymon::globs::IgnoreFilter;
use anymon::task::TaskSpec;

fn task_with(watch: Vec<&str>) -> TaskSpec {
    let cfg = TaskConfig {
        name: "t".to_string(),
        watch: watch.into_iter().map(|s| s.to_string()).collect(),
        run: "echo ok".to_string(),
        restart: None,
    };
    TaskSpec::from_config(&cfg, &vec!["/w".to_string()])
}

#[test]
fn include_matches_relative_to_root() {
    let task = task_with(vec!["**/*.txt"]);
    assert!(task.matches_path("/w/notes.txt"));
    assert!(task.matches_path("/w/deep/dir/notes.txt"));
    assert!(!task.matches_path("/w/notes.rs"));
    assert!(!task.matches_path("/elsewhere/notes.txt"));
}

#[test]
fn empty_watch_list_matches_everything() {
    let task = task_with(Vec::new());
    assert!(task.matches_path("/w/x"));
    assert!(task.matches_path("/elsewhere/y"));
}

#[test]
fn all_invalid_patterns_match_nothing() {
    let task = task_with(vec!["a[", "b["]);
    assert!(!task.matches_path("/w/a"));
    assert!(!task.matches_path("/w/a["));
}

#[test]
fn invalid_pattern_only_shrinks_the_match_set() {
    let task = task_with(vec!["a[", "*.txt"]);
    assert!(task.matches_path("/w/notes.txt"));
    assert!(!task.matches_path("/w/a"));
}

#[test]
fn ignored_build_path_is_invisible_despite_matching_include() {
    // ignore pattern `build/**`, include pattern `**/*.txt`: the event for
    // build/out.txt is dropped at the bus, so no task observes it, even
    // though the include rules alone would have matched it
    let roots = vec!["/w".to_string()];
    let filter = IgnoreFilter::new(&vec!["build/**".to_string()], &roots);
    let task = task_with(vec!["**/*.txt"]);
    let event_path = "/w/build/out.txt";
    assert!(task.matches_path(event_path));
    assert!(filter.is_ignored(event_path));
}
