//! What the library asks of its caller, and what the caller answers.

use crate::layout::{DirPath, PathView};
use vstd::prelude::*;

verus! {

/// One thing for the caller to do on disk. A request is all or nothing: one
/// that is answered with [`Reply::Failed`] has left the disk as it was.
#[derive(Debug, PartialEq, Eq)]
pub enum Request {
    /// Tell whether `path` is a directory.
    ProbeDir { path: DirPath },
    /// Tell whether anything exists at `path`.
    ProbeFile { path: DirPath },
    /// Create the file at `path` with `content`, all or nothing: where this
    /// fails, no file is left at `path`.
    CreateFile { path: DirPath, content: String },
    /// Open the store at `path`, creating it if it is absent, and keep it
    /// open until it is released.
    OpenStore { path: DirPath },
    /// Put the open store at `path` into write-ahead logging mode.
    EnableWriteAhead { path: DirPath },
    /// Read the schema version that the open store at `path` records.
    ReadVersion { path: DirPath },
    /// Apply, as one atomic unit, the migration that takes the open store
    /// at `path` to `version`, and record `version` in the store.
    ApplyMigration { path: DirPath, version: usize },
    /// Release the store at `path`, which was opened before. Releasing does
    /// not fail: the answer is [`Reply::Done`].
    CloseStore { path: DirPath },
}

/// Mathematical view of a [`Request`].
pub enum RequestView {
    ProbeDir { path: PathView },
    ProbeFile { path: PathView },
    CreateFile { path: PathView, content: Seq<char> },
    OpenStore { path: PathView },
    EnableWriteAhead { path: PathView },
    ReadVersion { path: PathView },
    ApplyMigration { path: PathView, version: nat },
    CloseStore { path: PathView },
}

impl View for Request {
    type V = RequestView;

    open spec fn view(&self) -> RequestView {
        match *self {
            Request::ProbeDir { path } => RequestView::ProbeDir { path: path@ },
            Request::ProbeFile { path } => RequestView::ProbeFile { path: path@ },
            Request::CreateFile { path, content } => RequestView::CreateFile {
                path: path@,
                content: content@,
            },
            Request::OpenStore { path } => RequestView::OpenStore { path: path@ },
            Request::EnableWriteAhead { path } => RequestView::EnableWriteAhead { path: path@ },
            Request::ReadVersion { path } => RequestView::ReadVersion { path: path@ },
            Request::ApplyMigration { path, version } => RequestView::ApplyMigration {
                path: path@,
                version: version as nat,
            },
            Request::CloseStore { path } => RequestView::CloseStore { path: path@ },
        }
    }
}

/// The caller's answer to a [`Request`].
#[derive(Debug, PartialEq, Eq)]
pub enum Reply {
    /// Answer to a probe: whether what was probed for is there.
    Found { present: bool },
    /// The requested change was made.
    Done,
    /// Answer to [`Request::ReadVersion`].
    Version { version: usize },
    /// The request failed; `detail` is the underlying error's text.
    Failed { detail: String },
}

/// Mathematical view of a [`Reply`].
pub enum ReplyView {
    Found { present: bool },
    Done,
    Version { version: nat },
    Failed { detail: Seq<char> },
}

impl View for Reply {
    type V = ReplyView;

    open spec fn view(&self) -> ReplyView {
        match *self {
            Reply::Found { present } => ReplyView::Found { present },
            Reply::Done => ReplyView::Done,
            Reply::Version { version } => ReplyView::Version { version: version as nat },
            Reply::Failed { detail } => ReplyView::Failed { detail: detail@ },
        }
    }
}

} // verus!
