//! Provisioning again: a second provisioning ends as the first did.

use crate::disk::Disk;
use crate::init::{provisioning, InitStateView};
use crate::layout::{
    ignore_file_path, ignore_file_placeholder, lemma_ignore_file_is_not_store, store_path,
    PathView,
};
use crate::outcome::is_provisioned;
use crate::protocol::RequestView;
use crate::provision::{IgnoreStage, StoreStageView};
use crate::run::{
    at_ignore, at_store, fault_of, lemma_run_closing, no_faults, passes, provision_run, run,
    run_step, Faults,
};
use vstd::prelude::*;

verus! {

proof fn lemma_pass_probe(root: PathView, disk: Disk, faults: Faults, latest: nat)
    requires
        disk.occupied(ignore_file_path(root)),
        passes(faults, RequestView::ProbeFile { path: ignore_file_path(root) }),
    ensures
        provision_run(root, disk, faults, latest) == run(
            at_store(root, StoreStageView::Opening),
            disk,
            faults,
            latest,
        ),
{
}

/// A run that starts over on a disk whose store was open and is released
/// comes back to asking for write-ahead logging mode on the open store.
proof fn lemma_pass_to_enabling(root: PathView, disk: Disk, faults: Faults, latest: nat)
    requires
        disk.occupied(ignore_file_path(root)),
        disk.holds(store_path(root)),
        passes(faults, RequestView::ProbeFile { path: ignore_file_path(root) }),
        passes(faults, RequestView::OpenStore { path: store_path(root) }),
    ensures
        provision_run(root, disk.released(store_path(root)), faults, latest) == run(
            at_store(root, StoreStageView::EnablingWriteAhead),
            disk,
            faults,
            latest,
        ),
{
    lemma_pass_probe(root, disk.released(store_path(root)), faults, latest);
}

/// A run that starts over on a disk whose store was open, in write-ahead
/// logging mode, and is released comes back to asking for its version.
proof fn lemma_pass_to_reading(root: PathView, disk: Disk, faults: Faults, latest: nat)
    requires
        disk.occupied(ignore_file_path(root)),
        disk.holds(store_path(root)),
        disk.store(store_path(root)).write_ahead,
        passes(faults, RequestView::ProbeFile { path: ignore_file_path(root) }),
        passes(faults, RequestView::OpenStore { path: store_path(root) }),
        passes(faults, RequestView::EnableWriteAhead { path: store_path(root) }),
    ensures
        provision_run(root, disk.released(store_path(root)), faults, latest) == run(
            at_store(root, StoreStageView::ReadingVersion),
            disk,
            faults,
            latest,
        ),
{
    lemma_pass_to_enabling(root, disk, faults, latest);
    let enabling = at_store(root, StoreStageView::EnablingWriteAhead);
    assert(run_step(enabling, disk, faults, latest).1.nodes == disk.nodes);
}

proof fn lemma_pass_read(root: PathView, disk: Disk, faults: Faults, latest: nat)
    requires
        disk.holds(store_path(root)),
        passes(faults, RequestView::ReadVersion { path: store_path(root) }),
    ensures
        run(at_store(root, StoreStageView::ReadingVersion), disk, faults, latest) == if disk.store(
            store_path(root),
        ).version >= latest {
            (InitStateView::Finished { outcome: Ok(root) }, disk.released(store_path(root)))
        } else {
            run(
                at_store(
                    root,
                    StoreStageView::Applying { version: disk.store(store_path(root)).version + 1 },
                ),
                disk,
                faults,
                latest,
            )
        },
{
    let path = store_path(root);
    if disk.store(path).version >= latest {
        lemma_run_closing(root, None, disk, faults, latest);
    }
}

/// Whether provisioning `root` once more, on the disk that a run ended
/// with and under the same faults, ends as that run did.
spec fn repeats(root: PathView, faults: Faults, latest: nat, end: (InitStateView, Disk)) -> bool {
    provision_run(root, end.1, faults, latest) == end
}

proof fn lemma_repeat_applying(
    root: PathView,
    version: nat,
    disk: Disk,
    faults: Faults,
    latest: nat,
)
    requires
        disk.occupied(ignore_file_path(root)),
        disk.holds(store_path(root)),
        disk.store(store_path(root)).write_ahead,
        disk.store(store_path(root)).version == version - 1,
        1 <= version <= latest,
        passes(faults, RequestView::ProbeFile { path: ignore_file_path(root) }),
        passes(faults, RequestView::OpenStore { path: store_path(root) }),
        passes(faults, RequestView::EnableWriteAhead { path: store_path(root) }),
        passes(faults, RequestView::ReadVersion { path: store_path(root) }),
    ensures
        repeats(
            root,
            faults,
            latest,
            run(at_store(root, StoreStageView::Applying { version }), disk, faults, latest),
        ),
    decreases latest - version,
{
    let path = store_path(root);
    lemma_ignore_file_is_not_store(root);
    let state = at_store(root, StoreStageView::Applying { version });
    let request = RequestView::ApplyMigration { path, version };
    let (next, after) = run_step(state, disk, faults, latest);
    if fault_of(faults, request) is Some {
        lemma_run_closing(root, next->failure, disk, faults, latest);
        lemma_pass_to_reading(root, disk, faults, latest);
        lemma_pass_read(root, disk, faults, latest);
    } else if version >= latest {
        lemma_run_closing(root, None, after, faults, latest);
        lemma_pass_to_reading(root, after, faults, latest);
        lemma_pass_read(root, after, faults, latest);
    } else {
        lemma_repeat_applying(root, version + 1, after, faults, latest);
    }
}

proof fn lemma_repeat_reading_version(root: PathView, disk: Disk, faults: Faults, latest: nat)
    requires
        disk.occupied(ignore_file_path(root)),
        disk.holds(store_path(root)),
        disk.store(store_path(root)).write_ahead,
        passes(faults, RequestView::ProbeFile { path: ignore_file_path(root) }),
        passes(faults, RequestView::OpenStore { path: store_path(root) }),
        passes(faults, RequestView::EnableWriteAhead { path: store_path(root) }),
    ensures
        repeats(
            root,
            faults,
            latest,
            run(at_store(root, StoreStageView::ReadingVersion), disk, faults, latest),
        ),
{
    let path = store_path(root);
    let state = at_store(root, StoreStageView::ReadingVersion);
    let request = RequestView::ReadVersion { path };
    lemma_pass_to_reading(root, disk, faults, latest);
    if fault_of(faults, request) is Some {
        let next = run_step(state, disk, faults, latest).0;
        lemma_run_closing(root, next->failure, disk, faults, latest);
    } else {
        lemma_pass_read(root, disk, faults, latest);
        if disk.store(path).version < latest {
            lemma_repeat_applying(root, disk.store(path).version + 1, disk, faults, latest);
        }
    }
}

proof fn lemma_repeat_enabling_write_ahead(
    root: PathView,
    disk: Disk,
    faults: Faults,
    latest: nat,
)
    requires
        disk.occupied(ignore_file_path(root)),
        disk.holds(store_path(root)),
        passes(faults, RequestView::ProbeFile { path: ignore_file_path(root) }),
        passes(faults, RequestView::OpenStore { path: store_path(root) }),
    ensures
        repeats(
            root,
            faults,
            latest,
            run(at_store(root, StoreStageView::EnablingWriteAhead), disk, faults, latest),
        ),
{
    let path = store_path(root);
    lemma_ignore_file_is_not_store(root);
    let state = at_store(root, StoreStageView::EnablingWriteAhead);
    let request = RequestView::EnableWriteAhead { path };
    let (next, after) = run_step(state, disk, faults, latest);
    if fault_of(faults, request) is Some {
        lemma_run_closing(root, next->failure, disk, faults, latest);
        lemma_pass_to_enabling(root, disk, faults, latest);
    } else {
        lemma_repeat_reading_version(root, after, faults, latest);
    }
}

proof fn lemma_repeat_opening(root: PathView, disk: Disk, faults: Faults, latest: nat)
    requires
        disk.occupied(ignore_file_path(root)),
        passes(faults, RequestView::ProbeFile { path: ignore_file_path(root) }),
    ensures
        repeats(
            root,
            faults,
            latest,
            run(at_store(root, StoreStageView::Opening), disk, faults, latest),
        ),
{
    lemma_ignore_file_is_not_store(root);
    let state = at_store(root, StoreStageView::Opening);
    let (next, after) = run_step(state, disk, faults, latest);
    if next is Finished {
        assert(run(next, after, faults, latest) == (next, disk));
        lemma_pass_probe(root, disk, faults, latest);
    } else {
        lemma_repeat_enabling_write_ahead(root, after, faults, latest);
    }
}

proof fn lemma_repeat_creating(root: PathView, disk: Disk, faults: Faults, latest: nat)
    requires
        !disk.occupied(ignore_file_path(root)),
        passes(faults, RequestView::ProbeFile { path: ignore_file_path(root) }),
    ensures
        repeats(
            root,
            faults,
            latest,
            run(at_ignore(root, IgnoreStage::Creating), disk, faults, latest),
        ),
{
    let ignore = ignore_file_path(root);
    let state = at_ignore(root, IgnoreStage::Creating);
    let request = RequestView::CreateFile { path: ignore, content: ignore_file_placeholder() };
    let (next, after) = run_step(state, disk, faults, latest);
    if fault_of(faults, request) is Some {
        assert(run(next, after, faults, latest) == (next, disk));
    } else {
        lemma_repeat_opening(root, after, faults, latest);
    }
}

/// Provisioning is idempotent: provisioning a root a second time, under
/// the same faults, ends in the state and with the disk in which the first
/// provisioning ended.
pub proof fn lemma_provision_is_idempotent(root: PathView, disk: Disk, faults: Faults, latest: nat)
    ensures
        provision_run(root, provision_run(root, disk, faults, latest).1, faults, latest)
            == provision_run(root, disk, faults, latest),
{
    let ignore = ignore_file_path(root);
    let state = provisioning(root);
    let request = RequestView::ProbeFile { path: ignore };
    let next = run_step(state, disk, faults, latest).0;
    if fault_of(faults, request) is Some {
        assert(run(next, disk, faults, latest) == (next, disk));
    } else if disk.occupied(ignore) {
        lemma_repeat_opening(root, disk, faults, latest);
    } else {
        lemma_repeat_creating(root, disk, faults, latest);
    }
}

/// A provisioned root is left alone: provisioning it again changes nothing
/// at any path, whatever fails, and succeeds when nothing fails.
pub proof fn lemma_provisioned_root_is_left_alone(
    root: PathView,
    disk: Disk,
    faults: Faults,
    latest: nat,
)
    requires
        is_provisioned(disk, root, latest),
    ensures
        provision_run(root, disk, faults, latest).1.nodes == disk.nodes,
        faults == no_faults() ==> provision_run(root, disk, faults, latest).0 == (
        InitStateView::Finished { outcome: Ok(root) }),
{
    let (opening, _) = run_step(provisioning(root), disk, faults, latest);
    if opening is Finished {
        assert(run(opening, disk, faults, latest) == (opening, disk));
    } else {
        let (enabling, held) = run_step(opening, disk, faults, latest);
        assert(run(opening, disk, faults, latest) == run(enabling, held, faults, latest));
        if enabling is Finished {
            assert(run(enabling, held, faults, latest) == (enabling, disk));
        } else {
            let (reading, after) = run_step(enabling, held, faults, latest);
            assert(after.nodes == held.nodes);
            assert(run(enabling, held, faults, latest) == run(reading, held, faults, latest));
            if reading is Closing {
                lemma_run_closing(root, reading->failure, held, faults, latest);
            } else {
                let closing = run_step(reading, held, faults, latest).0;
                assert(run(reading, held, faults, latest) == run(closing, held, faults, latest));
                lemma_run_closing(root, closing->failure, held, faults, latest);
            }
        }
    }
}

} // verus!
