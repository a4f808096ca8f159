//! Initialising a repository: find its root, then provision it.

use crate::error::{InitError, InitErrorView};
use crate::layout::{
    ignore_file_path, ignore_file_placeholder, marker_path, placeholder_content, store_path,
    DirPath, PathView,
};
use crate::locate::{find_git_root, search_step, RootSearch, RootSearchView};
use crate::protocol::{Reply, ReplyView, Request, RequestView};
use crate::provision::{
    create_cbignore, create_database, holds_store, ignore_step, store_is_held, store_step,
    IgnoreStage, Progress, ProgressView, StoreStage, StoreStageView,
};
use crate::schema::MigrationSet;
use vstd::prelude::*;

verus! {

/// Which part of provisioning is under way, and what it asks.
#[derive(Debug, Clone, Copy, PartialEq, Eq)]
pub enum Stage {
    Ignore(IgnoreStage),
    Store(StoreStage),
}

/// Mathematical view of a [`Stage`].
pub enum StageView {
    Ignore(IgnoreStage),
    Store(StoreStageView),
}

impl View for Stage {
    type V = StageView;

    open spec fn view(&self) -> StageView {
        match *self {
            Stage::Ignore(stage) => StageView::Ignore(stage),
            Stage::Store(stage) => StageView::Store(stage@),
        }
    }
}

/// How far an initialisation has come.
#[derive(Debug, PartialEq, Eq)]
pub enum InitState {
    /// The root is being searched for; `candidate` is being probed.
    Locating { candidate: DirPath },
    /// The repository rooted at `root` is being provisioned.
    Provisioning { root: DirPath, stage: Stage },
    /// The store of the repository rooted at `root` is being released, after
    /// provisioning succeeded or failed with `failure`.
    Closing { root: DirPath, failure: Option<InitError> },
    /// Nothing is left to do: the repository rooted at the path in `outcome`
    /// is provisioned, or the initialisation failed.
    Finished { outcome: Result<DirPath, InitError> },
}

/// Mathematical view of an [`InitState`].
pub enum InitStateView {
    Locating { candidate: PathView },
    Provisioning { root: PathView, stage: StageView },
    Closing { root: PathView, failure: Option<InitErrorView> },
    Finished { outcome: Result<PathView, InitErrorView> },
}

impl View for InitState {
    type V = InitStateView;

    open spec fn view(&self) -> InitStateView {
        match *self {
            InitState::Locating { candidate } => InitStateView::Locating { candidate: candidate@ },
            InitState::Provisioning { root, stage } => InitStateView::Provisioning {
                root: root@,
                stage: stage@,
            },
            InitState::Closing { root, failure } => InitStateView::Closing {
                root: root@,
                failure: match failure {
                    Some(error) => Some(error@),
                    None => None,
                },
            },
            InitState::Finished { outcome } => InitStateView::Finished {
                outcome: match outcome {
                    Ok(root) => Ok(root@),
                    Err(error) => Err(error@),
                },
            },
        }
    }
}

/// The state in which the search for the root starts in `start`.
pub open spec fn locating(start: PathView) -> InitStateView {
    InitStateView::Locating { candidate: start }
}

/// The state in which provisioning of the repository at `root` starts.
pub open spec fn provisioning(root: PathView) -> InitStateView {
    InitStateView::Provisioning {
        root,
        stage: StageView::Ignore(IgnoreStage::Probing),
    }
}

/// How provisioning of `root` ends when it failed with `failure`, or
/// succeeded if there is none.
pub open spec fn outcome_of(root: PathView, failure: Option<InitErrorView>) -> Result<
    PathView,
    InitErrorView,
> {
    match failure {
        Some(error) => Err(error),
        None => Ok(root),
    }
}

/// What a state asks its caller to do; nothing once it is finished.
pub open spec fn request_of(state: InitStateView) -> Option<RequestView> {
    match state {
        InitStateView::Locating { candidate } => Some(
            RequestView::ProbeDir { path: marker_path(candidate) },
        ),
        InitStateView::Provisioning { root, stage } => Some(
            match stage {
                StageView::Ignore(IgnoreStage::Probing) => RequestView::ProbeFile {
                    path: ignore_file_path(root),
                },
                StageView::Ignore(IgnoreStage::Creating) => RequestView::CreateFile {
                    path: ignore_file_path(root),
                    content: ignore_file_placeholder(),
                },
                StageView::Store(StoreStageView::Opening) => RequestView::OpenStore {
                    path: store_path(root),
                },
                StageView::Store(StoreStageView::EnablingWriteAhead) => RequestView::EnableWriteAhead {
                    path: store_path(root),
                },
                StageView::Store(StoreStageView::ReadingVersion) => RequestView::ReadVersion {
                    path: store_path(root),
                },
                StageView::Store(StoreStageView::Applying { version }) => RequestView::ApplyMigration {
                    path: store_path(root),
                    version,
                },
            },
        ),
        InitStateView::Closing { root, failure } => Some(
            RequestView::CloseStore { path: store_path(root) },
        ),
        InitStateView::Finished { outcome } => None,
    }
}

/// The state that follows `state` once its request was answered by `reply`,
/// where `latest` is the highest schema version that the migrations lead to.
///
/// The root is searched for first; without one the initialisation fails with
/// [`InitError::RootNotFound`], having asked for no change on disk. With a
/// root, the ignore-pattern file comes first and the index store second;
/// the first failure ends the provisioning. A store that was opened is
/// released before the initialisation finishes, whether provisioning
/// succeeded or failed. A finished state stays as it is, and so does any
/// state on a reply that does not answer its request.
pub open spec fn init_step(state: InitStateView, reply: ReplyView, latest: nat) -> InitStateView {
    match state {
        InitStateView::Locating { candidate } => match reply {
            ReplyView::Found { present } => match search_step(candidate, present) {
                RootSearchView::Probe { candidate } => InitStateView::Locating { candidate },
                RootSearchView::Found { root } => provisioning(root),
                RootSearchView::NotFound => InitStateView::Finished {
                    outcome: Err(InitErrorView::RootNotFound),
                },
            },
            _ => state,
        },
        InitStateView::Provisioning { root, stage: StageView::Ignore(stage) } => match ignore_step(
            stage,
            reply,
        ) {
            ProgressView::Pending { stage } => InitStateView::Provisioning {
                root,
                stage: StageView::Ignore(stage),
            },
            ProgressView::Complete => InitStateView::Provisioning {
                root,
                stage: StageView::Store(StoreStageView::Opening),
            },
            ProgressView::Failed { error } => InitStateView::Finished { outcome: Err(error) },
        },
        InitStateView::Provisioning { root, stage: StageView::Store(stage) } => match store_step(
            stage,
            reply,
            latest,
        ) {
            ProgressView::Pending { stage } => InitStateView::Provisioning {
                root,
                stage: StageView::Store(stage),
            },
            ProgressView::Complete => InitStateView::Closing { root, failure: None },
            ProgressView::Failed { error } => if holds_store(stage) {
                InitStateView::Closing { root, failure: Some(error) }
            } else {
                InitStateView::Finished { outcome: Err(error) }
            },
        },
        InitStateView::Closing { root, failure } => match reply {
            ReplyView::Done => InitStateView::Finished { outcome: outcome_of(root, failure) },
            _ => state,
        },
        InitStateView::Finished { outcome } => state,
    }
}

impl InitState {
    /// An initialisation that searches for the root from `start` upwards.
    pub fn start(start: DirPath) -> (state: InitState)
        ensures
            state@ == locating(start@),
    {
        InitState::Locating { candidate: start }
    }

    /// An initialisation of the repository rooted at `root`: it provisions
    /// that root without searching for it.
    pub fn at_root(root: DirPath) -> (state: InitState)
        ensures
            state@ == provisioning(root@),
    {
        InitState::Provisioning { root, stage: Stage::Ignore(IgnoreStage::Probing) }
    }

    /// What the caller is to do next, and answer to [`run_init`]; `None`
    /// once the initialisation is finished.
    pub fn request(&self) -> (request: Option<Request>)
        ensures
            match request {
                Some(request) => request_of(self@) == Some(request@),
                None => request_of(self@) is None,
            },
    {
        match self {
            InitState::Locating { candidate } => Some(Request::ProbeDir { path: candidate.marker() }),
            InitState::Provisioning { root, stage } => Some(
                match stage {
                    Stage::Ignore(IgnoreStage::Probing) => Request::ProbeFile {
                        path: root.ignore_file(),
                    },
                    Stage::Ignore(IgnoreStage::Creating) => Request::CreateFile {
                        path: root.ignore_file(),
                        content: placeholder_content(),
                    },
                    Stage::Store(StoreStage::Opening) => Request::OpenStore {
                        path: root.store(),
                    },
                    Stage::Store(StoreStage::EnablingWriteAhead) => Request::EnableWriteAhead {
                        path: root.store(),
                    },
                    Stage::Store(StoreStage::ReadingVersion) => Request::ReadVersion {
                        path: root.store(),
                    },
                    Stage::Store(StoreStage::Applying { version }) => Request::ApplyMigration {
                        path: root.store(),
                        version: *version,
                    },
                },
            ),
            InitState::Closing { root, failure: _ } => Some(Request::CloseStore { path: root.store() }),
            InitState::Finished { outcome: _ } => None,
        }
    }

    /// Whether the initialisation is finished.
    pub fn is_finished(&self) -> (finished: bool)
        ensures
            finished == (self@ is Finished),
            finished == (request_of(self@) is None),
    {
        match self {
            InitState::Finished { outcome: _ } => true,
            _ => false,
        }
    }
}

/// Takes an initialisation one step further: `reply` answers the request of
/// `state`, and the result is the state that follows, whose request is what
/// the caller does next.
pub fn run_init(state: InitState, reply: Reply, migrations: &MigrationSet) -> (next: InitState)
    ensures
        next@ == init_step(state@, reply@, migrations@.len()),
{
    match state {
        InitState::Locating { candidate } => match reply {
            Reply::Found { present } => match find_git_root(candidate, present) {
                RootSearch::Probe { candidate } => InitState::Locating { candidate },
                RootSearch::Found { root } => InitState::at_root(root),
                RootSearch::NotFound => InitState::Finished { outcome: Err(InitError::RootNotFound) },
            },
            _ => InitState::Locating { candidate },
        },
        InitState::Provisioning { root, stage: Stage::Ignore(stage) } => match create_cbignore(
            stage,
            reply,
        ) {
            Progress::Pending { stage } => InitState::Provisioning {
                root,
                stage: Stage::Ignore(stage),
            },
            Progress::Complete => InitState::Provisioning {
                root,
                stage: Stage::Store(StoreStage::Opening),
            },
            Progress::Failed { error } => InitState::Finished { outcome: Err(error) },
        },
        InitState::Provisioning { root, stage: Stage::Store(stage) } => match create_database(
            stage,
            reply,
            migrations.latest(),
        ) {
            Progress::Pending { stage } => InitState::Provisioning {
                root,
                stage: Stage::Store(stage),
            },
            Progress::Complete => InitState::Closing { root, failure: None },
            Progress::Failed { error } => if store_is_held(stage) {
                InitState::Closing { root, failure: Some(error) }
            } else {
                InitState::Finished { outcome: Err(error) }
            },
        },
        InitState::Closing { root, failure } => match reply {
            Reply::Done => InitState::Finished {
                outcome: match failure {
                    Some(error) => Err(error),
                    None => Ok(root),
                },
            },
            _ => InitState::Closing { root, failure },
        },
        InitState::Finished { outcome } => InitState::Finished { outcome },
    }
}

} // verus!
