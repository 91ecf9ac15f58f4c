use anymon::globs::{expand_patterns, pattern_compiles, rel_path, set_matches, IgnoreFilter};

#[test]
fn pattern_compilation() {
    assert!(pattern_compiles("**/*.rs"));
    assert!(pattern_compiles("build/**"));
    assert!(!pattern_compiles("a["));
}

#[test]
fn single_pattern_matching() {
    let pats = vec!["*.txt".to_string()];
    assert!(set_matches(&pats, "a.txt"));
    assert!(!set_matches(&pats, "a.rs"));
}

#[test]
fn malformed_patterns_never_match() {
    let pats = vec!["a[".to_string()];
    assert!(!set_matches(&pats, "a"));
    assert!(!set_matches(&pats, "a["));
}

#[test]
fn expansion_adds_rooted_forms() {
    let pats = vec!["*.rs".to_string(), "src/**".to_string()];
    let roots = vec!["/w".to_string()];
    let expanded = expand_patterns(&pats, &roots);
    let expected = vec!["*.rs", "/w/*.rs", "src/**", "/w/src/**"];
    let got: Vec<&str> = expanded.iter().map(|s| s.as_str()).collect();
    assert_eq!(got, expected);
}

#[test]
fn relative_paths() {
    assert_eq!(rel_path("/w/src/main.rs", "/w"), Some("src/main.rs"));
    assert_eq!(rel_path("/w", "/w"), Some(""));
    assert_eq!(rel_path("/wide/x", "/w"), None);
    assert_eq!(rel_path("/other/x", "/w"), None);
}

#[test]
fn ignore_filter_drops_matches() {
    let pats = vec!["build/**".to_string()];
    let roots = vec!["/w".to_string()];
    let filter = IgnoreFilter::new(&pats, &roots);
    assert!(filter.is_ignored("build/out.txt"));
    assert!(filter.is_ignored("/w/build/out.txt"));
    assert!(!filter.is_ignored("/w/src/lib.rs"));
}

#[test]
fn empty_ignore_list_discards_nothing() {
    let filter = IgnoreFilter::new(&Vec::new(), &vec!["/w".to_string()]);
    assert!(!filter.is_ignored("/w/anything"));
    assert!(!filter.is_ignored(""));
}
