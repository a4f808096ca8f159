//! Provisioning a repository root: the ignore-pattern file is created unless
//! it exists, and the index store is opened, put into write-ahead logging
//! mode and migrated, one version at a time, to the latest schema.

use crate::error::{InitError, InitErrorView};
use crate::protocol::{Reply, ReplyView};
use vstd::prelude::*;

verus! {

/// What is being asked about the ignore-pattern file.
#[derive(Debug, Clone, Copy, PartialEq, Eq)]
pub enum IgnoreStage {
    /// Whether the file exists.
    Probing,
    /// To create it with the placeholder content.
    Creating,
}

/// What is being asked about the index store.
#[derive(Debug, Clone, Copy, PartialEq, Eq)]
pub enum StoreStage {
    /// To open the store, creating it if it is absent.
    Opening,
    /// To put it into write-ahead logging mode.
    EnablingWriteAhead,
    /// Which schema version it records.
    ReadingVersion,
    /// To apply the migration to `version`.
    Applying { version: usize },
}

/// Mathematical view of a [`StoreStage`].
pub enum StoreStageView {
    Opening,
    EnablingWriteAhead,
    ReadingVersion,
    Applying { version: nat },
}

impl View for IgnoreStage {
    type V = IgnoreStage;

    open spec fn view(&self) -> IgnoreStage {
        *self
    }
}

impl View for StoreStage {
    type V = StoreStageView;

    open spec fn view(&self) -> StoreStageView {
        match *self {
            StoreStage::Opening => StoreStageView::Opening,
            StoreStage::EnablingWriteAhead => StoreStageView::EnablingWriteAhead,
            StoreStage::ReadingVersion => StoreStageView::ReadingVersion,
            StoreStage::Applying { version } => StoreStageView::Applying { version: version as nat },
        }
    }
}

/// How one part of provisioning stands after a reply.
#[derive(Debug, PartialEq, Eq)]
pub enum Progress<S> {
    /// The part is not done: `stage` says what is asked next.
    Pending { stage: S },
    /// The part is done.
    Complete,
    /// The part failed, and provisioning with it.
    Failed { error: InitError },
}

/// Mathematical view of a [`Progress`].
pub enum ProgressView<S> {
    Pending { stage: S },
    Complete,
    Failed { error: InitErrorView },
}

impl<S: View> View for Progress<S> {
    type V = ProgressView<S::V>;

    open spec fn view(&self) -> ProgressView<S::V> {
        match *self {
            Progress::Pending { stage } => ProgressView::Pending { stage: stage@ },
            Progress::Complete => ProgressView::Complete,
            Progress::Failed { error } => ProgressView::Failed { error: error@ },
        }
    }
}

/// The ignore-pattern file: a file that exists is kept as it is, an absent
/// one is created, and any failure is an [`InitError::IgnoreFileIo`]. A reply
/// that does not answer what `stage` asks leaves the stage as it is.
pub open spec fn ignore_step(stage: IgnoreStage, reply: ReplyView) -> ProgressView<IgnoreStage> {
    match (stage, reply) {
        (_, ReplyView::Failed { detail }) => ProgressView::Failed {
            error: InitErrorView::IgnoreFileIo { detail },
        },
        (IgnoreStage::Probing, ReplyView::Found { present }) => if present {
            ProgressView::Complete
        } else {
            ProgressView::Pending { stage: IgnoreStage::Creating }
        },
        (IgnoreStage::Creating, ReplyView::Done) => ProgressView::Complete,
        _ => ProgressView::Pending { stage },
    }
}

/// The index store: opened, then put into write-ahead logging mode, then
/// asked for its version; then the migrations above that version are
/// applied in ascending order, each after the one before it succeeded, up to
/// `latest`. A store at or beyond `latest` needs none. A failed migration is
/// an [`InitError::Migration`] with its version, any other failure an
/// [`InitError::StoreOpen`]. A reply that does not answer what `stage` asks
/// leaves the stage as it is.
pub open spec fn store_step(stage: StoreStageView, reply: ReplyView, latest: nat) -> ProgressView<
    StoreStageView,
> {
    match (stage, reply) {
        (StoreStageView::Applying { version }, ReplyView::Failed { detail }) => ProgressView::Failed {
            error: InitErrorView::Migration { version, detail },
        },
        (_, ReplyView::Failed { detail }) => ProgressView::Failed {
            error: InitErrorView::StoreOpen { detail },
        },
        (StoreStageView::Opening, ReplyView::Done) => ProgressView::Pending {
            stage: StoreStageView::EnablingWriteAhead,
        },
        (StoreStageView::EnablingWriteAhead, ReplyView::Done) => ProgressView::Pending {
            stage: StoreStageView::ReadingVersion,
        },
        (StoreStageView::ReadingVersion, ReplyView::Version { version }) => migrate_from(
            version,
            latest,
        ),
        (StoreStageView::Applying { version }, ReplyView::Done) => migrate_from(version, latest),
        _ => ProgressView::Pending { stage },
    }
}

/// Whether the store is open while `stage` is asked: it is from the moment
/// that opening it succeeded.
pub open spec fn holds_store(stage: StoreStageView) -> bool {
    !(stage is Opening)
}

/// What is left to do for a store that records `version`: nothing at or
/// beyond `latest`, and else the migration to the next version.
pub open spec fn migrate_from(version: nat, latest: nat) -> ProgressView<StoreStageView> {
    if version >= latest {
        ProgressView::Complete
    } else {
        ProgressView::Pending { stage: StoreStageView::Applying { version: version + 1 } }
    }
}

/// Decides how the ignore-pattern file goes on after `reply`.
pub fn create_cbignore(stage: IgnoreStage, reply: Reply) -> (progress: Progress<IgnoreStage>)
    ensures
        progress@ == ignore_step(stage, reply@),
{
    match reply {
        Reply::Failed { detail } => Progress::Failed { error: InitError::IgnoreFileIo { detail } },
        Reply::Found { present } => match stage {
            IgnoreStage::Probing => if present {
                Progress::Complete
            } else {
                Progress::Pending { stage: IgnoreStage::Creating }
            },
            IgnoreStage::Creating => Progress::Pending { stage },
        },
        Reply::Done => match stage {
            IgnoreStage::Creating => Progress::Complete,
            IgnoreStage::Probing => Progress::Pending { stage },
        },
        Reply::Version { version: _ } => Progress::Pending { stage },
    }
}

/// Decides how the index store goes on after `reply`, where `latest` is the
/// highest schema version that the migrations lead to.
pub fn create_database(stage: StoreStage, reply: Reply, latest: usize) -> (progress: Progress<
    StoreStage,
>)
    ensures
        progress@ == store_step(stage@, reply@, latest as nat),
{
    match reply {
        Reply::Failed { detail } => match stage {
            StoreStage::Applying { version } => Progress::Failed {
                error: InitError::Migration { version, detail },
            },
            _ => Progress::Failed { error: InitError::StoreOpen { detail } },
        },
        Reply::Done => match stage {
            StoreStage::Opening => Progress::Pending { stage: StoreStage::EnablingWriteAhead },
            StoreStage::EnablingWriteAhead => Progress::Pending { stage: StoreStage::ReadingVersion },
            StoreStage::Applying { version } => next_migration(version, latest),
            StoreStage::ReadingVersion => Progress::Pending { stage },
        },
        Reply::Version { version } => match stage {
            StoreStage::ReadingVersion => next_migration(version, latest),
            _ => Progress::Pending { stage },
        },
        Reply::Found { present: _ } => Progress::Pending { stage },
    }
}

/// Whether the store is open while `stage` is asked.
pub fn store_is_held(stage: StoreStage) -> (held: bool)
    ensures
        held == holds_store(stage@),
{
    match stage {
        StoreStage::Opening => false,
        _ => true,
    }
}

/// What is left to do for a store that records `version`.
pub fn next_migration(version: usize, latest: usize) -> (progress: Progress<StoreStage>)
    ensures
        progress@ == migrate_from(version as nat, latest as nat),
{
    if version >= latest {
        Progress::Complete
    } else {
        Progress::Pending { stage: StoreStage::Applying { version: version + 1 } }
    }
}

} // verus!
