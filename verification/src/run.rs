//! Whole runs of an initialisation against the modelled disk.

use crate::disk::Disk;
use crate::error::InitErrorView;
use crate::init::{
    init_step, locating, outcome_of, provisioning, request_of, InitStateView, StageView,
};
use crate::layout::{ignore_file_path, lemma_ignore_file_is_not_store, store_path, PathView};
use crate::protocol::RequestView;
use crate::provision::{IgnoreStage, StoreStageView};
use vstd::prelude::*;

verus! {

/// The requests that fail during one run, each with the detail that its
/// failure reports. A run makes no request twice.
pub type Faults = Map<RequestView, Seq<char>>;

/// The fault, if any, that `faults` holds for `request`.
pub open spec fn fault_of(faults: Faults, request: RequestView) -> Option<Seq<char>> {
    if faults.dom().contains(request) {
        Some(faults[request])
    } else {
        None
    }
}

/// The run in which no request fails.
pub open spec fn no_faults() -> Faults {
    Map::empty()
}

/// Whether `request` does not fail under `faults`.
pub open spec fn passes(faults: Faults, request: RequestView) -> bool {
    fault_of(faults, request) is None
}

/// A bound on the number of requests that `state` and the states after it
/// still make.
pub open spec fn steps_left(state: InitStateView, latest: nat) -> nat {
    match state {
        InitStateView::Locating { candidate } => candidate.len() + latest + 8,
        InitStateView::Provisioning { root, stage } => match stage {
            StageView::Ignore(IgnoreStage::Probing) => latest + 7,
            StageView::Ignore(IgnoreStage::Creating) => latest + 6,
            StageView::Store(StoreStageView::Opening) => latest + 5,
            StageView::Store(StoreStageView::EnablingWriteAhead) => latest + 4,
            StageView::Store(StoreStageView::ReadingVersion) => latest + 3,
            StageView::Store(StoreStageView::Applying { version }) => if version
                <= latest {
                (latest - version + 2) as nat
            } else {
                2
            },
        },
        InitStateView::Closing { root, failure } => 1,
        InitStateView::Finished { outcome } => 0,
    }
}

/// One step of a run: the request of `state` is answered by the disk, or
/// fails as `faults` says, and the reply leads to the next state. A state
/// that asks for nothing stays, and the disk with it.
pub open spec fn run_step(state: InitStateView, disk: Disk, faults: Faults, latest: nat) -> (
    InitStateView,
    Disk,
) {
    match request_of(state) {
        None => (state, disk),
        Some(request) => {
            let (after, reply) = disk.respond(request, fault_of(faults, request));
            (init_step(state, reply, latest), after)
        },
    }
}

/// The state and the disk at the end of the run that starts in `state` on
/// `disk`: step after step, until a state asks for nothing.
pub open spec fn run(state: InitStateView, disk: Disk, faults: Faults, latest: nat) -> (
    InitStateView,
    Disk,
)
    decreases steps_left(state, latest),
{
    if request_of(state) is None {
        (state, disk)
    } else {
        let (next, after) = run_step(state, disk, faults, latest);
        run(next, after, faults, latest)
    }
}

/// The state and the disk after the first `steps` steps of the run that
/// starts in `state` on `disk`.
pub open spec fn run_steps(
    steps: nat,
    state: InitStateView,
    disk: Disk,
    faults: Faults,
    latest: nat,
) -> (InitStateView, Disk)
    decreases steps,
{
    if steps == 0 {
        (state, disk)
    } else {
        let (next, after) = run_step(state, disk, faults, latest);
        run_steps((steps - 1) as nat, next, after, faults, latest)
    }
}

/// A run ends after finitely many steps: the result is a number of steps
/// after which the run is where it ends.
pub proof fn lemma_run_takes_steps(
    state: InitStateView,
    disk: Disk,
    faults: Faults,
    latest: nat,
) -> (steps: nat)
    ensures
        run_steps(steps, state, disk, faults, latest) == run(state, disk, faults, latest),
        steps <= steps_left(state, latest),
    decreases steps_left(state, latest),
{
    if request_of(state) is None {
        0
    } else {
        let (next, after) = run_step(state, disk, faults, latest);
        lemma_run_takes_steps(next, after, faults, latest) + 1
    }
}

/// What every state of a run asks of a disk that is ready for it: the
/// ignore-pattern file is created only where nothing is in its place; a
/// store is worked on, and released, only while it is open; its version is
/// read, and migrations are applied, only in write-ahead logging mode; and
/// the migration to a version is applied only to a store that records the
/// version before it, and only up to the latest version.
pub open spec fn in_order(state: InitStateView, disk: Disk, latest: nat) -> bool {
    match state {
        InitStateView::Provisioning { root, stage } => match stage {
            StageView::Ignore(IgnoreStage::Probing) => true,
            StageView::Ignore(IgnoreStage::Creating) => !disk.occupied(ignore_file_path(root)),
            StageView::Store(StoreStageView::Opening) => true,
            StageView::Store(StoreStageView::EnablingWriteAhead) => disk.holds(store_path(root)),
            StageView::Store(StoreStageView::ReadingVersion) => {
                &&& disk.holds(store_path(root))
                &&& disk.store(store_path(root)).write_ahead
            },
            StageView::Store(StoreStageView::Applying { version }) => {
                &&& disk.holds(store_path(root))
                &&& disk.store(store_path(root)).write_ahead
                &&& disk.store(store_path(root)).version + 1 == version
                &&& version <= latest
            },
        },
        InitStateView::Closing { root, failure } => disk.holds(store_path(root)),
        InitStateView::Locating { candidate } => true,
        InitStateView::Finished { outcome } => true,
    }
}

/// A step keeps a run in order.
pub proof fn lemma_step_keeps_order(state: InitStateView, disk: Disk, faults: Faults, latest: nat)
    requires
        in_order(state, disk, latest),
    ensures
        in_order(
            run_step(state, disk, faults, latest).0,
            run_step(state, disk, faults, latest).1,
            latest,
        ),
{
    if let InitStateView::Provisioning { root, stage } = state {
        lemma_ignore_file_is_not_store(root);
    }
}

/// The search for a root and the start of a provisioning are in order on
/// any disk.
pub proof fn lemma_starts_in_order(path: PathView, disk: Disk, latest: nat)
    ensures
        in_order(locating(path), disk, latest),
        in_order(provisioning(path), disk, latest),
{
}

/// A run that starts in order stays in order, step after step.
pub proof fn lemma_run_stays_in_order(
    steps: nat,
    state: InitStateView,
    disk: Disk,
    faults: Faults,
    latest: nat,
)
    requires
        in_order(state, disk, latest),
    ensures
        in_order(
            run_steps(steps, state, disk, faults, latest).0,
            run_steps(steps, state, disk, faults, latest).1,
            latest,
        ),
    decreases steps,
{
    if steps > 0 {
        lemma_step_keeps_order(state, disk, faults, latest);
        let (next, after) = run_step(state, disk, faults, latest);
        lemma_run_stays_in_order((steps - 1) as nat, next, after, faults, latest);
    }
}

/// The state in which provisioning of `root` asks for `stage` of the store.
pub open spec fn at_store(root: PathView, stage: StoreStageView) -> InitStateView {
    InitStateView::Provisioning { root, stage: StageView::Store(stage) }
}

/// The state in which provisioning of `root` asks for `stage` of the
/// ignore-pattern file.
pub open spec fn at_ignore(root: PathView, stage: IgnoreStage) -> InitStateView {
    InitStateView::Provisioning { root, stage: StageView::Ignore(stage) }
}

/// The end of the run that searches for the root from `start` and
/// provisions it.
pub open spec fn init_run(start: PathView, disk: Disk, faults: Faults, latest: nat) -> (
    InitStateView,
    Disk,
) {
    run(locating(start), disk, faults, latest)
}

/// The end of the run that provisions the repository rooted at `root`.
pub open spec fn provision_run(root: PathView, disk: Disk, faults: Faults, latest: nat) -> (
    InitStateView,
    Disk,
) {
    run(provisioning(root), disk, faults, latest)
}

/// Releasing the store ends a run: the store is released, nothing else
/// changes, and the run finishes with the outcome that was pending.
pub proof fn lemma_run_closing(
    root: PathView,
    failure: Option<InitErrorView>,
    disk: Disk,
    faults: Faults,
    latest: nat,
)
    ensures
        run(InitStateView::Closing { root, failure }, disk, faults, latest) == (
            InitStateView::Finished { outcome: outcome_of(root, failure) },
            disk.released(store_path(root)),
        ),
{
    let state = InitStateView::Closing { root, failure };
    let (next, after) = run_step(state, disk, faults, latest);
    assert(run(next, after, faults, latest) == (next, after));
}

} // verus!
