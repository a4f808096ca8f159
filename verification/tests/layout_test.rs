use codebased::layout::{placeholder_content, DirPath};
use codebased::schema::MigrationSet;

fn path(names: &[&str]) -> DirPath {
    DirPath::new(names.iter().map(|name| name.to_string()).collect())
}

#[test]
fn new_path_holds_its_components() {
    let p = DirPath::new(vec!["srv".to_string(), "code".to_string()]);
    assert_eq!(p.components, vec!["srv".to_string(), "code".to_string()]);
    assert_eq!(p.depth(), 2);
}

#[test]
fn filesystem_root_has_depth_zero() {
    assert_eq!(path(&[]).depth(), 0);
}

#[test]
fn pop_moves_to_parent() {
    let mut p = path(&["srv", "code", "src"]);
    assert!(p.pop());
    assert_eq!(p, path(&["srv", "code"]));
    assert!(p.pop());
    assert!(p.pop());
    assert_eq!(p, path(&[]));
}

#[test]
fn pop_at_filesystem_root_stays() {
    let mut p = path(&[]);
    assert!(!p.pop());
    assert_eq!(p, path(&[]));
}

#[test]
fn duplicate_is_equal_and_independent() {
    let p = path(&["srv", "code"]);
    let mut q = p.duplicate();
    assert_eq!(p, q);
    q.pop();
    assert_eq!(p, path(&["srv", "code"]));
    assert_eq!(q, path(&["srv"]));
}

#[test]
fn child_appends_one_component() {
    assert_eq!(path(&["srv"]).child("code"), path(&["srv", "code"]));
    assert_eq!(path(&[]).child("srv"), path(&["srv"]));
}

#[test]
fn repository_files_live_directly_under_the_root() {
    let root = path(&["srv", "code"]);
    assert_eq!(root.marker(), path(&["srv", "code", ".git"]));
    assert_eq!(root.ignore_file(), path(&["srv", "code", ".cbignore"]));
    assert_eq!(root.store(), path(&["srv", "code", ".codebased.db"]));
    assert_eq!(root, path(&["srv", "code"]));
}

#[test]
fn placeholder_is_one_comment_line() {
    let content = placeholder_content();
    assert_eq!(content, "# Add patterns to ignore here, similar to .gitignore\n");
    assert!(content.starts_with('#'));
    assert_eq!(content.lines().count(), 1);
}

#[test]
fn embedded_migrations_hold_the_baseline_alone() {
    let set = MigrationSet::embedded();
    assert_eq!(set.latest(), 1);
    assert_eq!(set.scripts.len(), 1);
    let script = set.script(1).unwrap();
    assert!(script.starts_with("CREATE TABLE"));
    assert!(script.trim_end().ends_with(';'));
}

#[test]
fn migration_versions_start_at_one() {
    let set = MigrationSet::new(vec!["first;".to_string(), "second;".to_string()]);
    assert_eq!(set.latest(), 2);
    assert_eq!(set.script(0), None);
    assert_eq!(set.script(1), Some(&"first;".to_string()));
    assert_eq!(set.script(2), Some(&"second;".to_string()));
    assert_eq!(set.script(3), None);
    assert_eq!(set.script(usize::MAX), None);
}

#[test]
fn empty_migration_set_has_no_versions() {
    let set = MigrationSet::new(vec![]);
    assert_eq!(set.latest(), 0);
    assert_eq!(set.script(0), None);
    assert_eq!(set.script(1), None);
}
