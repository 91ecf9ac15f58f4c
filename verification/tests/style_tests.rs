use anymon::style::{pref, pref_task};

#[test]
fn program_prefix_carries_the_tag() {
    let p = pref();
    assert!(p.contains("[anymon]"));
}

#[test]
fn task_prefix_carries_tag_and_name() {
    let p = pref_task("web");
    assert!(p.contains("[anymon]"));
    assert!(p.contains("[web]"));
    assert!(p.ends_with(':'));
}
