//! Finding the repository root: the nearest directory, from the start
//! directory upwards, that holds the marker directory.

use crate::disk::Disk;
use crate::layout::{marker_path, DirPath, PathView};
use vstd::prelude::*;

verus! {

/// Where a search for the repository root stands after one probe.
#[derive(Debug, PartialEq, Eq)]
pub enum RootSearch {
    /// The probed directory holds no marker; `candidate`, its parent, is to
    /// be probed next.
    Probe { candidate: DirPath },
    /// The probed directory holds the marker: it is the repository root.
    Found { root: DirPath },
    /// The filesystem root was probed and holds no marker.
    NotFound,
}

/// Mathematical view of a [`RootSearch`].
pub enum RootSearchView {
    Probe { candidate: PathView },
    Found { root: PathView },
    NotFound,
}

impl View for RootSearch {
    type V = RootSearchView;

    open spec fn view(&self) -> RootSearchView {
        match *self {
            RootSearch::Probe { candidate } => RootSearchView::Probe { candidate: candidate@ },
            RootSearch::Found { root } => RootSearchView::Found { root: root@ },
            RootSearch::NotFound => RootSearchView::NotFound,
        }
    }
}

/// One step of the search: `candidate` was probed, and `marker_present` says
/// whether it holds the marker directory.
pub open spec fn search_step(candidate: PathView, marker_present: bool) -> RootSearchView {
    if marker_present {
        RootSearchView::Found { root: candidate }
    } else if candidate.len() > 0 {
        RootSearchView::Probe { candidate: candidate.drop_last() }
    } else {
        RootSearchView::NotFound
    }
}

/// Decides how the search goes on once `candidate` has been probed for the
/// marker directory: the candidate is the root if it holds the marker;
/// otherwise its parent is next; the filesystem root has none, and the
/// search ends without a root.
pub fn find_git_root(candidate: DirPath, marker_present: bool) -> (next: RootSearch)
    ensures
        next@ == search_step(candidate@, marker_present),
{
    if marker_present {
        RootSearch::Found { root: candidate }
    } else {
        let mut parent = candidate;
        if parent.pop() {
            RootSearch::Probe { candidate: parent }
        } else {
            RootSearch::NotFound
        }
    }
}

/// Whether `dir` holds the marker directory on `disk`.
pub open spec fn is_marked(disk: Disk, dir: PathView) -> bool {
    disk.is_directory(marker_path(dir))
}

/// The directory `levels` levels above `start`; `start` itself for 0.
pub open spec fn ancestor(start: PathView, levels: nat) -> PathView
    recommends
        levels <= start.len(),
{
    start.take(start.len() - levels)
}

/// The root that the search arrives at when it starts in `start` and every
/// probe is answered from `disk`; `None` if it ends without one.
pub open spec fn locate_root(disk: Disk, start: PathView) -> Option<PathView>
    decreases start.len(),
{
    match search_step(start, is_marked(disk, start)) {
        RootSearchView::Found { root } => Some(root),
        RootSearchView::Probe { candidate } => locate_root(disk, candidate),
        RootSearchView::NotFound => None,
    }
}

/// A search finds the nearest marked ancestor of its start directory,
/// however many levels up that is: if the directory `levels` above `start`
/// holds the marker and no directory nearer to `start` does, the search
/// from `start` returns that directory.
pub proof fn lemma_locate_root_finds_nearest_marked_ancestor(
    disk: Disk,
    start: PathView,
    levels: nat,
)
    requires
        levels <= start.len(),
        is_marked(disk, ancestor(start, levels)),
        forall|nearer: nat| nearer < levels ==> !is_marked(disk, #[trigger] ancestor(start, nearer)),
    ensures
        locate_root(disk, start) == Some(ancestor(start, levels)),
    decreases levels,
{
    assert(ancestor(start, 0) == start);
    if levels > 0 {
        let parent = start.drop_last();
        assert(ancestor(parent, (levels - 1) as nat) == ancestor(start, levels));
        assert forall|nearer: nat| nearer < levels - 1 implies !is_marked(
            disk,
            #[trigger] ancestor(parent, nearer),
        ) by {
            assert(ancestor(parent, nearer) == ancestor(start, nearer + 1));
        }
        lemma_locate_root_finds_nearest_marked_ancestor(disk, parent, (levels - 1) as nat);
    }
}

/// A search that starts outside any repository finds none: if neither
/// `start` nor any directory above it holds the marker, the search from
/// `start` ends without a root.
pub proof fn lemma_locate_root_fails_outside_repository(disk: Disk, start: PathView)
    requires
        forall|levels: nat|
            levels <= start.len() ==> !is_marked(disk, #[trigger] ancestor(start, levels)),
    ensures
        locate_root(disk, start) is None,
    decreases start.len(),
{
    assert(ancestor(start, 0) == start);
    if start.len() > 0 {
        let parent = start.drop_last();
        assert forall|levels: nat| levels <= parent.len() implies !is_marked(
            disk,
            #[trigger] ancestor(parent, levels),
        ) by {
            assert(ancestor(parent, levels) == ancestor(start, levels + 1));
        }
        lemma_locate_root_fails_outside_repository(disk, parent);
    }
}

/// Whatever a search returns is an ancestor of its start directory that
/// holds the marker, and no directory nearer to the start holds it.
pub proof fn lemma_locate_root_is_nearest_marked_ancestor(disk: Disk, start: PathView)
    ensures
        match locate_root(disk, start) {
            Some(root) => exists|levels: nat|
                {
                    &&& levels <= start.len()
                    &&& root == #[trigger] ancestor(start, levels)
                    &&& is_marked(disk, root)
                    &&& forall|nearer: nat|
                        nearer < levels ==> !is_marked(disk, #[trigger] ancestor(start, nearer))
                },
            None => forall|levels: nat|
                levels <= start.len() ==> !is_marked(disk, #[trigger] ancestor(start, levels)),
        },
    decreases start.len(),
{
    assert(ancestor(start, 0) == start);
    if is_marked(disk, start) {
        assert(locate_root(disk, start) == Some(ancestor(start, 0)));
    } else if start.len() > 0 {
        let parent = start.drop_last();
        lemma_locate_root_is_nearest_marked_ancestor(disk, parent);
        assert forall|levels: nat| 0 < levels <= start.len() implies ancestor(start, levels)
            == ancestor(parent, (levels - 1) as nat) by {}
        match locate_root(disk, parent) {
            Some(root) => {
                let up = choose|levels: nat|
                    {
                        &&& levels <= parent.len()
                        &&& root == #[trigger] ancestor(parent, levels)
                        &&& is_marked(disk, root)
                        &&& forall|nearer: nat|
                            nearer < levels ==> !is_marked(
                                disk,
                                #[trigger] ancestor(parent, nearer),
                            )
                    };
                assert(root == ancestor(start, up + 1));
                assert forall|nearer: nat| nearer < up + 1 implies !is_marked(
                    disk,
                    #[trigger] ancestor(start, nearer),
                ) by {
                    if nearer > 0 {
                        assert(ancestor(start, nearer) == ancestor(parent, (nearer - 1) as nat));
                    }
                }
            },
            None => {
                assert forall|levels: nat| levels <= start.len() implies !is_marked(
                    disk,
                    #[trigger] ancestor(start, levels),
                ) by {
                    if levels > 0 {
                        assert(ancestor(start, levels) == ancestor(parent, (levels - 1) as nat));
                    }
                }
            },
        }
    }
}

} // verus!
