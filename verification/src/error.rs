//! Why an initialisation failed.

use crate::text::{decimal, decimal_text};
use vstd::prelude::*;
use vstd::string::StringExecFns;

verus! {

/// The ways in which initialising a repository fails.
#[derive(Debug, PartialEq, Eq)]
pub enum InitError {
    /// No directory from the start directory up to the filesystem root holds
    /// the marker directory.
    RootNotFound,
    /// The ignore-pattern file could not be probed or created.
    IgnoreFileIo { detail: String },
    /// The index store could not be opened or prepared for use.
    StoreOpen { detail: String },
    /// The migration to `version` failed; the store stays at the version
    /// before it.
    Migration { version: usize, detail: String },
}

/// Mathematical view of an [`InitError`].
pub enum InitErrorView {
    RootNotFound,
    IgnoreFileIo { detail: Seq<char> },
    StoreOpen { detail: Seq<char> },
    Migration { version: nat, detail: Seq<char> },
}

impl View for InitError {
    type V = InitErrorView;

    open spec fn view(&self) -> InitErrorView {
        match *self {
            InitError::RootNotFound => InitErrorView::RootNotFound,
            InitError::IgnoreFileIo { detail } => InitErrorView::IgnoreFileIo { detail: detail@ },
            InitError::StoreOpen { detail } => InitErrorView::StoreOpen { detail: detail@ },
            InitError::Migration { version, detail } => InitErrorView::Migration {
                version: version as nat,
                detail: detail@,
            },
        }
    }
}

/// The text that reports `error` to a user.
pub open spec fn message_of(error: InitErrorView) -> Seq<char> {
    match error {
        InitErrorView::RootNotFound => "no repository found"@,
        InitErrorView::IgnoreFileIo { detail } => detail,
        InitErrorView::StoreOpen { detail } => detail,
        InitErrorView::Migration { version, detail } => "Migration to version "@ + decimal(version)
            + " failed: "@ + detail,
    }
}

impl InitError {
    /// The text that reports this error to a user: for a failure on disk
    /// the underlying error's text, for a failed migration that text behind
    /// the version that failed.
    pub fn message(&self) -> (text: String)
        ensures
            text@ == message_of(self@),
    {
        match self {
            InitError::RootNotFound => "no repository found".to_string(),
            InitError::IgnoreFileIo { detail } => detail.clone(),
            InitError::StoreOpen { detail } => detail.clone(),
            InitError::Migration { version, detail } => {
                let mut text = "Migration to version ".to_string();
                text.append(decimal_text(*version).as_str());
                text.append(" failed: ");
                text.append(detail.as_str());
                text
            },
        }
    }
}

} // verus!
