use codebased::layout::DirPath;
use codebased::locate::{find_git_root, RootSearch};

fn path(names: &[&str]) -> DirPath {
    DirPath::new(names.iter().map(|name| name.to_string()).collect())
}

/// Runs the search from `start`, answering each probe from `marked`.
fn locate(start: &[&str], marked: &[&[&str]]) -> (Option<DirPath>, Vec<DirPath>) {
    let mut probed = Vec::new();
    let mut candidate = path(start);
    loop {
        probed.push(candidate.duplicate());
        let present = marked.iter().any(|dir| path(dir) == candidate);
        match find_git_root(candidate, present) {
            RootSearch::Found { root } => return (Some(root), probed),
            RootSearch::NotFound => return (None, probed),
            RootSearch::Probe { candidate: parent } => candidate = parent,
        }
    }
}

#[test]
fn find_git_root_stops_at_marked_directory() {
    let next = find_git_root(path(&["home", "me", "repo"]), true);
    assert_eq!(next, RootSearch::Found { root: path(&["home", "me", "repo"]) });
}

#[test]
fn find_git_root_stops_at_marked_filesystem_root() {
    assert_eq!(find_git_root(path(&[]), true), RootSearch::Found { root: path(&[]) });
}

#[test]
fn find_git_root_moves_to_parent() {
    let next = find_git_root(path(&["home", "me", "repo"]), false);
    assert_eq!(next, RootSearch::Probe { candidate: path(&["home", "me"]) });
}

#[test]
fn find_git_root_moves_from_top_level_to_filesystem_root() {
    assert_eq!(find_git_root(path(&["home"]), false), RootSearch::Probe { candidate: path(&[]) });
}

#[test]
fn find_git_root_gives_up_at_filesystem_root() {
    assert_eq!(find_git_root(path(&[]), false), RootSearch::NotFound);
}

#[test]
fn locate_finds_marker_at_every_depth() {
    let start = ["a", "b", "c", "d"];
    for levels in 0..=start.len() {
        let root = &start[..start.len() - levels];
        let (found, probed) = locate(&start, &[root]);
        assert_eq!(found, Some(path(root)));
        assert_eq!(probed.len(), levels + 1);
    }
}

#[test]
fn locate_probes_from_start_upwards() {
    let (found, probed) = locate(&["a", "b", "c"], &[&["a"]]);
    assert_eq!(found, Some(path(&["a"])));
    assert_eq!(probed, vec![path(&["a", "b", "c"]), path(&["a", "b"]), path(&["a"])]);
}

#[test]
fn locate_prefers_nearest_marker() {
    let (found, _) = locate(&["a", "b", "c"], &[&["a"], &["a", "b"]]);
    assert_eq!(found, Some(path(&["a", "b"])));
}

#[test]
fn locate_outside_repository_fails() {
    let (found, probed) = locate(&["a", "b"], &[&["x"], &["a", "b", "c"]]);
    assert_eq!(found, None);
    assert_eq!(probed, vec![path(&["a", "b"]), path(&["a"]), path(&[])]);
}

#[test]
fn locate_from_filesystem_root_without_marker_fails() {
    let (found, probed) = locate(&[], &[]);
    assert_eq!(found, None);
    assert_eq!(probed, vec![path(&[])]);
}
