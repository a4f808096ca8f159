//! What a run guarantees: how it ends, and what it leaves on disk.

use crate::disk::{Disk, Node};
use crate::error::InitErrorView;
use crate::init::{locating, provisioning, InitStateView};
use crate::layout::{
    ignore_file_path, ignore_file_placeholder, lemma_ignore_file_is_not_store, store_path,
    PathView,
};
use crate::locate::{
    ancestor, is_marked, lemma_locate_root_fails_outside_repository,
    lemma_locate_root_finds_nearest_marked_ancestor, locate_root,
};
use crate::protocol::RequestView;
use crate::provision::{IgnoreStage, StoreStageView};
use crate::run::{
    at_ignore, at_store, fault_of, init_run, lemma_run_closing, no_faults, provision_run, run,
    run_step, Faults,
};
use vstd::prelude::*;

verus! {

/// The version at which migrating a store that records `version` ends when
/// nothing fails: `latest`, unless the store is beyond it already.
pub open spec fn target_version(version: nat, latest: nat) -> nat {
    if version <= latest {
        latest
    } else {
        version
    }
}

/// A repository root that needs nothing more: its ignore-pattern file
/// exists, and its store is in write-ahead logging mode and at or beyond
/// the latest schema version.
pub open spec fn is_provisioned(disk: Disk, root: PathView, latest: nat) -> bool {
    &&& disk.occupied(ignore_file_path(root))
    &&& disk.has_store(store_path(root))
    &&& disk.store(store_path(root)).write_ahead
    &&& disk.store(store_path(root)).version >= latest
}

/// What holds at the end of a run that starts at any stage of the store.
spec fn store_post(
    root: PathView,
    before: Disk,
    faults: Faults,
    latest: nat,
    end: (InitStateView, Disk),
) -> bool {
    let path = store_path(root);
    let (state, after) = end;
    &&& state is Finished
    &&& after.nodes.remove(path) == before.nodes.remove(path)
    &&& after.open == before.open.remove(path) || after == before
    &&& before.version_at(path) <= after.version_at(path)
    &&& before.occupied(path) && !before.has_store(path) ==> after == before
    &&& before.has_store(path) ==> after.has_store(path)
    &&& faults == no_faults() && (before.has_store(path) || !before.occupied(path))
        ==> state->outcome is Ok
    &&& match state->outcome {
        Ok(found) => {
            &&& found == root
            &&& after.has_store(path)
            &&& after.store(path).write_ahead
            &&& after.store(path).version == target_version(before.version_at(path), latest)
            &&& after.open == before.open.remove(path)
        },
        Err(InitErrorView::Migration { version, detail }) => {
            &&& after.has_store(path)
            &&& before.version_at(path) < version <= latest
            &&& after.store(path).version == version - 1
            &&& fault_of(faults, RequestView::ApplyMigration { path, version }) == Some(detail)
            &&& after.open == before.open.remove(path)
        },
        Err(InitErrorView::StoreOpen { detail }) => after.version_at(path) == before.version_at(
            path,
        ),
        Err(_) => false,
    }
}

proof fn lemma_run_applying(root: PathView, version: nat, disk: Disk, faults: Faults, latest: nat)
    requires
        disk.holds(store_path(root)),
        disk.store(store_path(root)).write_ahead,
        1 <= version <= latest,
        disk.store(store_path(root)).version == version - 1,
    ensures
        store_post(
            root,
            disk,
            faults,
            latest,
            run(at_store(root, StoreStageView::Applying { version }), disk, faults, latest),
        ),
        run(at_store(root, StoreStageView::Applying { version }), disk, faults, latest).1.open
            == disk.open.remove(store_path(root)),
        !(run(at_store(root, StoreStageView::Applying { version }), disk, faults, latest).0
            matches InitStateView::Finished { outcome: Err(InitErrorView::StoreOpen { .. }) }),
    decreases latest - version,
{
    let path = store_path(root);
    let state = at_store(root, StoreStageView::Applying { version });
    let request = RequestView::ApplyMigration { path, version };
    let (next, after) = run_step(state, disk, faults, latest);
    if fault_of(faults, request) is Some {
        lemma_run_closing(root, next->failure, disk, faults, latest);
    } else {
        assert(after.nodes.remove(path) == disk.nodes.remove(path));
        if version >= latest {
            lemma_run_closing(root, None, after, faults, latest);
        } else {
            lemma_run_applying(root, version + 1, after, faults, latest);
        }
    }
}

proof fn lemma_run_reading_version(root: PathView, disk: Disk, faults: Faults, latest: nat)
    requires
        disk.holds(store_path(root)),
        disk.store(store_path(root)).write_ahead,
    ensures
        store_post(
            root,
            disk,
            faults,
            latest,
            run(at_store(root, StoreStageView::ReadingVersion), disk, faults, latest),
        ),
        run(at_store(root, StoreStageView::ReadingVersion), disk, faults, latest).1.open
            == disk.open.remove(store_path(root)),
{
    let path = store_path(root);
    let state = at_store(root, StoreStageView::ReadingVersion);
    let request = RequestView::ReadVersion { path };
    let next = run_step(state, disk, faults, latest).0;
    if fault_of(faults, request) is Some {
        lemma_run_closing(root, next->failure, disk, faults, latest);
    } else {
        let version = disk.store(path).version;
        if version >= latest {
            lemma_run_closing(root, None, disk, faults, latest);
        } else {
            lemma_run_applying(root, version + 1, disk, faults, latest);
        }
    }
}

proof fn lemma_run_enabling_write_ahead(root: PathView, disk: Disk, faults: Faults, latest: nat)
    requires
        disk.holds(store_path(root)),
    ensures
        store_post(
            root,
            disk,
            faults,
            latest,
            run(at_store(root, StoreStageView::EnablingWriteAhead), disk, faults, latest),
        ),
        run(at_store(root, StoreStageView::EnablingWriteAhead), disk, faults, latest).1.open
            == disk.open.remove(store_path(root)),
{
    let path = store_path(root);
    let state = at_store(root, StoreStageView::EnablingWriteAhead);
    let request = RequestView::EnableWriteAhead { path };
    let (next, after) = run_step(state, disk, faults, latest);
    if fault_of(faults, request) is Some {
        lemma_run_closing(root, next->failure, disk, faults, latest);
    } else {
        lemma_run_reading_version(root, after, faults, latest);
        let end = run(next, after, faults, latest);
        assert(end.1.nodes.remove(path) == disk.nodes.remove(path));
    }
}

proof fn lemma_run_opening(root: PathView, disk: Disk, faults: Faults, latest: nat)
    ensures
        store_post(
            root,
            disk,
            faults,
            latest,
            run(at_store(root, StoreStageView::Opening), disk, faults, latest),
        ),
{
    let path = store_path(root);
    let state = at_store(root, StoreStageView::Opening);
    let (next, after) = run_step(state, disk, faults, latest);
    if next is Finished {
        assert(run(next, after, faults, latest) == (next, disk));
    } else {
        assert(after.open.remove(path) == disk.open.remove(path));
        lemma_run_enabling_write_ahead(root, after, faults, latest);
        let end = run(next, after, faults, latest);
        assert(end.1.nodes.remove(path) == disk.nodes.remove(path));
    }
}

/// What holds at the end of a run that provisions `root`.
spec fn provision_post(
    root: PathView,
    before: Disk,
    faults: Faults,
    latest: nat,
    end: (InitStateView, Disk),
) -> bool {
    let ignore = ignore_file_path(root);
    let path = store_path(root);
    let (state, after) = end;
    &&& state is Finished
    &&& after.nodes.remove(path).remove(ignore) == before.nodes.remove(path).remove(ignore)
    &&& after.open == before.open.remove(path) || after.open == before.open
    &&& before.occupied(ignore) ==> after.occupied(ignore) && after.nodes[ignore]
        == before.nodes[ignore]
    &&& !before.occupied(ignore) && after.occupied(ignore) ==> after.nodes[ignore] == (Node::File {
        content: ignore_file_placeholder(),
    })
    &&& before.version_at(path) <= after.version_at(path)
    &&& before.has_store(path) ==> after.has_store(path)
    &&& before.occupied(path) && !before.has_store(path) ==> after.occupied(path)
        && after.nodes[path] == before.nodes[path]
    &&& faults == no_faults() && (before.has_store(path) || !before.occupied(path))
        ==> state->outcome is Ok
    &&& match state->outcome {
        Ok(found) => {
            &&& found == root
            &&& is_provisioned(after, root, latest)
            &&& after.store(path).version == target_version(before.version_at(path), latest)
            &&& after.open == before.open.remove(path)
        },
        Err(InitErrorView::Migration { version, detail }) => {
            &&& after.occupied(ignore)
            &&& after.has_store(path)
            &&& before.version_at(path) < version <= latest
            &&& after.store(path).version == version - 1
            &&& fault_of(faults, RequestView::ApplyMigration { path, version }) == Some(detail)
            &&& after.open == before.open.remove(path)
        },
        Err(InitErrorView::StoreOpen { detail }) => {
            &&& after.occupied(ignore)
            &&& after.version_at(path) == before.version_at(path)
        },
        Err(InitErrorView::IgnoreFileIo { detail }) => after == before,
        Err(InitErrorView::RootNotFound) => false,
    }
}

proof fn lemma_run_store(root: PathView, disk: Disk, faults: Faults, latest: nat)
    requires
        disk.occupied(ignore_file_path(root)),
    ensures
        provision_post(
            root,
            disk,
            faults,
            latest,
            run(at_store(root, StoreStageView::Opening), disk, faults, latest),
        ),
        run(at_store(root, StoreStageView::Opening), disk, faults, latest).1.nodes[ignore_file_path(
            root,
        )] == disk.nodes[ignore_file_path(root)],
        !(run(at_store(root, StoreStageView::Opening), disk, faults, latest).0
            matches InitStateView::Finished { outcome: Err(InitErrorView::IgnoreFileIo { .. }) }),
{
    let ignore = ignore_file_path(root);
    let path = store_path(root);
    lemma_ignore_file_is_not_store(root);
    lemma_run_opening(root, disk, faults, latest);
    let end = run(at_store(root, StoreStageView::Opening), disk, faults, latest);
    assert(end.1.nodes.remove(path).dom().contains(ignore));
    assert(end.1.nodes.remove(path)[ignore] == disk.nodes[ignore]);
}

proof fn lemma_run_creating(root: PathView, disk: Disk, faults: Faults, latest: nat)
    requires
        !disk.occupied(ignore_file_path(root)),
    ensures
        provision_post(
            root,
            disk,
            faults,
            latest,
            run(at_ignore(root, IgnoreStage::Creating), disk, faults, latest),
        ),
{
    let ignore = ignore_file_path(root);
    let path = store_path(root);
    lemma_ignore_file_is_not_store(root);
    let state = at_ignore(root, IgnoreStage::Creating);
    let request = RequestView::CreateFile { path: ignore, content: ignore_file_placeholder() };
    let (next, after) = run_step(state, disk, faults, latest);
    if fault_of(faults, request) is Some {
        assert(run(next, after, faults, latest) == (next, disk));
    } else {
        lemma_run_store(root, after, faults, latest);
        assert(after.nodes.remove(path).remove(ignore) == disk.nodes.remove(path).remove(ignore));
    }
}

proof fn lemma_run_provisioning(root: PathView, disk: Disk, faults: Faults, latest: nat)
    ensures
        provision_post(root, disk, faults, latest, provision_run(root, disk, faults, latest)),
{
    let ignore = ignore_file_path(root);
    let state = provisioning(root);
    let request = RequestView::ProbeFile { path: ignore };
    let next = run_step(state, disk, faults, latest).0;
    if fault_of(faults, request) is Some {
        assert(run(next, disk, faults, latest) == (next, disk));
    } else if disk.occupied(ignore) {
        lemma_run_store(root, disk, faults, latest);
    } else {
        lemma_run_creating(root, disk, faults, latest);
    }
}

/// Every provisioning comes to an end: it succeeds with the root it was
/// given, or fails with an error other than [`InitErrorView::RootNotFound`].
pub proof fn lemma_provision_finishes(root: PathView, disk: Disk, faults: Faults, latest: nat)
    ensures
        match provision_run(root, disk, faults, latest).0 {
            InitStateView::Finished { outcome: Ok(found) } => found == root,
            InitStateView::Finished { outcome: Err(error) } => !(error is RootNotFound),
            _ => false,
        },
{
    lemma_run_provisioning(root, disk, faults, latest);
}

/// Provisioning succeeds when no request fails, unless something other than
/// a store is in the place of the index store.
pub proof fn lemma_provision_succeeds_when_nothing_fails(root: PathView, disk: Disk, latest: nat)
    requires
        disk.has_store(store_path(root)) || !disk.occupied(store_path(root)),
    ensures
        provision_run(root, disk, no_faults(), latest).0 == (InitStateView::Finished {
            outcome: Ok(root),
        }),
{
    lemma_run_provisioning(root, disk, no_faults(), latest);
}

/// The store is released on every path: whether provisioning succeeds or
/// fails, and whatever fails, it leaves no store open that was not open
/// before it.
pub proof fn lemma_provision_releases_store(
    root: PathView,
    disk: Disk,
    faults: Faults,
    latest: nat,
)
    ensures
        provision_run(root, disk, faults, latest).1.open.subset_of(disk.open),
        !disk.open.contains(store_path(root)) ==> provision_run(root, disk, faults, latest).1.open
            == disk.open,
{
    lemma_run_provisioning(root, disk, faults, latest);
}

/// Provisioning changes nothing on disk but the ignore-pattern file and the
/// index store of its root.
pub proof fn lemma_provision_touches_only_its_files(
    root: PathView,
    disk: Disk,
    faults: Faults,
    latest: nat,
    other: PathView,
)
    requires
        other != ignore_file_path(root),
        other != store_path(root),
    ensures
        provision_run(root, disk, faults, latest).1.occupied(other) == disk.occupied(other),
        provision_run(root, disk, faults, latest).1.nodes[other] == disk.nodes[other],
{
    lemma_run_provisioning(root, disk, faults, latest);
    let ignore = ignore_file_path(root);
    let path = store_path(root);
    assert(disk.nodes.remove(path).remove(ignore).dom().contains(other) == disk.occupied(other));
    assert(disk.nodes.remove(path).remove(ignore)[other] == disk.nodes[other]);
}

/// An ignore-pattern file that exists is never altered: whatever is at its
/// path before provisioning is there, unchanged, after it, whether the
/// provisioning succeeds or fails.
pub proof fn lemma_provision_keeps_existing_ignore_file(
    root: PathView,
    disk: Disk,
    faults: Faults,
    latest: nat,
)
    requires
        disk.occupied(ignore_file_path(root)),
    ensures
        provision_run(root, disk, faults, latest).1.occupied(ignore_file_path(root)),
        provision_run(root, disk, faults, latest).1.nodes[ignore_file_path(root)]
            == disk.nodes[ignore_file_path(root)],
{
    lemma_run_provisioning(root, disk, faults, latest);
}

/// An ignore-pattern file that provisioning creates holds the placeholder
/// comment and nothing else.
pub proof fn lemma_provision_creates_placeholder(
    root: PathView,
    disk: Disk,
    faults: Faults,
    latest: nat,
)
    requires
        !disk.occupied(ignore_file_path(root)),
        provision_run(root, disk, faults, latest).1.occupied(ignore_file_path(root)),
    ensures
        provision_run(root, disk, faults, latest).1.nodes[ignore_file_path(root)] == (Node::File {
            content: ignore_file_placeholder(),
        }),
{
    lemma_run_provisioning(root, disk, faults, latest);
}

/// After a provisioning that succeeded, the root is provisioned: the
/// ignore-pattern file exists, and the store is in write-ahead logging mode.
/// A store that was not beyond the latest version records exactly the
/// latest version; one that was beyond it records what it recorded before.
pub proof fn lemma_provision_reaches_latest(
    root: PathView,
    disk: Disk,
    faults: Faults,
    latest: nat,
)
    requires
        provision_run(root, disk, faults, latest).0 matches InitStateView::Finished {
            outcome: Ok(_),
        },
    ensures
        is_provisioned(provision_run(root, disk, faults, latest).1, root, latest),
        disk.version_at(store_path(root)) <= latest ==> provision_run(
            root,
            disk,
            faults,
            latest,
        ).1.store(store_path(root)).version == latest,
        disk.version_at(store_path(root)) > latest ==> provision_run(
            root,
            disk,
            faults,
            latest,
        ).1.store(store_path(root)).version == disk.version_at(store_path(root)),
{
    lemma_run_provisioning(root, disk, faults, latest);
}

/// A migration that fails leaves the store at the version before it: when
/// provisioning ends with the failure of the migration to `version`, that
/// migration is one that was due, its attempt failed with the reported
/// detail, and the store records `version - 1`.
pub proof fn lemma_failed_migration_keeps_version(
    root: PathView,
    disk: Disk,
    faults: Faults,
    latest: nat,
    version: nat,
    detail: Seq<char>,
)
    requires
        provision_run(root, disk, faults, latest).0 == (InitStateView::Finished {
            outcome: Err(InitErrorView::Migration { version, detail }),
        }),
    ensures
        disk.version_at(store_path(root)) < version <= latest,
        fault_of(faults, RequestView::ApplyMigration { path: store_path(root), version }) == Some(
            detail,
        ),
        provision_run(root, disk, faults, latest).1.has_store(store_path(root)),
        provision_run(root, disk, faults, latest).1.store(store_path(root)).version == version - 1,
{
    lemma_run_provisioning(root, disk, faults, latest);
}

/// Schema versions only move forward: whether provisioning succeeds or
/// fails, the store records no lower version after it than before, and a
/// store that exists is not removed. Any failure other than that of a
/// migration leaves the recorded version as it was.
pub proof fn lemma_provision_never_downgrades(
    root: PathView,
    disk: Disk,
    faults: Faults,
    latest: nat,
)
    ensures
        disk.version_at(store_path(root)) <= provision_run(root, disk, faults, latest).1.version_at(
            store_path(root),
        ),
        disk.has_store(store_path(root)) ==> provision_run(root, disk, faults, latest).1.has_store(
            store_path(root),
        ),
        provision_run(root, disk, faults, latest).0 matches InitStateView::Finished {
            outcome: Err(error),
        } && !(error is Migration) ==> provision_run(root, disk, faults, latest).1.version_at(
            store_path(root),
        ) == disk.version_at(store_path(root)),
{
    lemma_run_provisioning(root, disk, faults, latest);
}

/// An initialisation searches for the root and provisions what it finds:
/// from `start` it ends as the provisioning of the nearest marked ancestor
/// of `start` ends. Where there is none it fails with
/// [`InitErrorView::RootNotFound`] and the disk is as it was: no
/// ignore-pattern file and no store was created.
pub proof fn lemma_init_locates_then_provisions(
    start: PathView,
    disk: Disk,
    faults: Faults,
    latest: nat,
)
    ensures
        init_run(start, disk, faults, latest) == match locate_root(disk, start) {
            Some(root) => provision_run(root, disk, faults, latest),
            None => (InitStateView::Finished { outcome: Err(InitErrorView::RootNotFound) }, disk),
        },
    decreases start.len(),
{
    let state = locating(start);
    let next = run_step(state, disk, faults, latest).0;
    if is_marked(disk, start) {
    } else if start.len() > 0 {
        lemma_init_locates_then_provisions(start.drop_last(), disk, faults, latest);
    } else {
        assert(run(next, disk, faults, latest) == (next, disk));
    }
}

/// From anywhere inside a repository, an initialisation provisions the
/// repository's root: if the directory `levels` above `start` holds the
/// marker and no directory nearer to `start` does, the initialisation from
/// `start` ends as the provisioning of that directory ends, however many
/// levels up it is.
pub proof fn lemma_init_provisions_nearest_marked_ancestor(
    start: PathView,
    levels: nat,
    disk: Disk,
    faults: Faults,
    latest: nat,
)
    requires
        levels <= start.len(),
        is_marked(disk, ancestor(start, levels)),
        forall|nearer: nat| nearer < levels ==> !is_marked(disk, #[trigger] ancestor(start, nearer)),
    ensures
        init_run(start, disk, faults, latest) == provision_run(
            ancestor(start, levels),
            disk,
            faults,
            latest,
        ),
{
    lemma_locate_root_finds_nearest_marked_ancestor(disk, start, levels);
    lemma_init_locates_then_provisions(start, disk, faults, latest);
}

/// Outside any repository an initialisation fails and changes nothing: if
/// neither `start` nor any directory above it holds the marker, the
/// initialisation from `start` ends with [`InitErrorView::RootNotFound`] on
/// the disk as it was.
pub proof fn lemma_init_outside_repository_changes_nothing(
    start: PathView,
    disk: Disk,
    faults: Faults,
    latest: nat,
)
    requires
        forall|levels: nat|
            levels <= start.len() ==> !is_marked(disk, #[trigger] ancestor(start, levels)),
    ensures
        init_run(start, disk, faults, latest) == (
            InitStateView::Finished { outcome: Err(InitErrorView::RootNotFound) },
            disk,
        ),
{
    lemma_locate_root_fails_outside_repository(disk, start);
    lemma_init_locates_then_provisions(start, disk, faults, latest);
}

} // verus!
