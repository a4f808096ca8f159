//! A model of the disk that a caller works on: what requests do to it when
//! they succeed, and that a failed request changes nothing.

use crate::layout::PathView;
use crate::protocol::{ReplyView, RequestView};
use vstd::prelude::*;

verus! {

/// What an index store holds, as far as initialisation is concerned.
pub struct StoreModel {
    /// The schema version that the store records; 0 in a fresh store.
    pub version: nat,
    /// Whether the store is in write-ahead logging mode.
    pub write_ahead: bool,
}

/// What there is at one path.
pub enum Node {
    Directory,
    File { content: Seq<char> },
    Store { store: StoreModel },
}

/// The disk: what there is at each path that exists, and which stores
/// are held open.
pub struct Disk {
    pub nodes: Map<PathView, Node>,
    pub open: Set<PathView>,
}

impl Disk {
    /// Whether anything exists at `path`.
    pub open spec fn occupied(self, path: PathView) -> bool {
        self.nodes.dom().contains(path)
    }

    /// Whether `path` is a directory.
    pub open spec fn is_directory(self, path: PathView) -> bool {
        self.occupied(path) && self.nodes[path] is Directory
    }

    /// Whether `path` holds a store.
    pub open spec fn has_store(self, path: PathView) -> bool {
        self.occupied(path) && self.nodes[path] is Store
    }

    /// The store at `path`, where there is one.
    pub open spec fn store(self, path: PathView) -> StoreModel
        recommends
            self.has_store(path),
    {
        self.nodes[path]->store
    }

    /// The schema version that a store opened at `path` would record: that of
    /// the store there, and 0 where nothing exists yet.
    pub open spec fn version_at(self, path: PathView) -> nat {
        if self.has_store(path) {
            self.store(path).version
        } else {
            0
        }
    }

    /// Whether `path` holds a store that is open.
    pub open spec fn holds(self, path: PathView) -> bool {
        self.has_store(path) && self.open.contains(path)
    }

    /// The disk with `node` at `path`.
    pub open spec fn with(self, path: PathView, node: Node) -> Disk {
        Disk { nodes: self.nodes.insert(path, node), ..self }
    }

    /// The disk with the store at `path` open.
    pub open spec fn opened(self, path: PathView) -> Disk {
        Disk { open: self.open.insert(path), ..self }
    }

    /// The disk with the store at `path` released.
    pub open spec fn released(self, path: PathView) -> Disk {
        Disk { open: self.open.remove(path), ..self }
    }

    /// The disk after `request` succeeded, and the reply that reports it.
    /// What cannot succeed is answered as failed, with nothing changed: to
    /// open as a store what is something else, and to work on a store that
    /// is not open.
    pub open spec fn perform(self, request: RequestView) -> (Disk, ReplyView) {
        match request {
            RequestView::ProbeDir { path } => (
                self,
                ReplyView::Found { present: self.is_directory(path) },
            ),
            RequestView::ProbeFile { path } => (self, ReplyView::Found { present: self.occupied(path) }),
            RequestView::CreateFile { path, content } => (
                self.with(path, Node::File { content }),
                ReplyView::Done,
            ),
            RequestView::OpenStore { path } => if !self.occupied(path) {
                (
                    self.with(
                        path,
                        Node::Store { store: StoreModel { version: 0, write_ahead: false } },
                    ).opened(path),
                    ReplyView::Done,
                )
            } else if self.has_store(path) {
                (self.opened(path), ReplyView::Done)
            } else {
                (self, ReplyView::Failed { detail: Seq::empty() })
            },
            RequestView::EnableWriteAhead { path } => if self.holds(path) {
                (
                    self.with(
                        path,
                        Node::Store {
                            store: StoreModel { write_ahead: true, ..self.store(path) },
                        },
                    ),
                    ReplyView::Done,
                )
            } else {
                (self, ReplyView::Failed { detail: Seq::empty() })
            },
            RequestView::ReadVersion { path } => if self.holds(path) {
                (self, ReplyView::Version { version: self.store(path).version })
            } else {
                (self, ReplyView::Failed { detail: Seq::empty() })
            },
            RequestView::ApplyMigration { path, version } => if self.holds(path) {
                (
                    self.with(
                        path,
                        Node::Store { store: StoreModel { version, ..self.store(path) } },
                    ),
                    ReplyView::Done,
                )
            } else {
                (self, ReplyView::Failed { detail: Seq::empty() })
            },
            RequestView::CloseStore { path } => (self.released(path), ReplyView::Done),
        }
    }

    /// The disk after `request` was attempted, and the reply. With a `fault`
    /// the request fails with that detail and changes nothing. Two requests
    /// never fail: probing for a directory answers `false` where it cannot
    /// tell, and a store is released whatever happens.
    pub open spec fn respond(self, request: RequestView, fault: Option<Seq<char>>) -> (
        Disk,
        ReplyView,
    ) {
        match fault {
            Some(detail) if !(request is ProbeDir || request is CloseStore) => (
                self,
                ReplyView::Failed { detail },
            ),
            _ => self.perform(request),
        }
    }
}

} // verus!
