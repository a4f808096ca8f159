//! The commands of the command line: what each prints, whether it needs an
//! initialisation, and whether it ends in failure.

use crate::cli::{
    init_banner, init_report_text, limit_line, query_line, search_report, usage_hint,
};
use crate::disk::Disk;
use crate::error::{InitError, InitErrorView};
use crate::layout::{DirPath, PathView};
use crate::locate::{ancestor, is_marked, locate_root};
use crate::outcome::{
    lemma_init_locates_then_provisions, lemma_init_outside_repository_changes_nothing,
    lemma_provision_finishes,
};
use crate::run::{init_run, Faults};
use vstd::prelude::*;

verus! {

/// A command, as the command line gave it.
#[derive(Debug, PartialEq, Eq)]
pub enum Command {
    /// Initialise the repository around the current directory.
    Init,
    /// Search for `query`, with at most `limit` results.
    Search { query: Option<String>, limit: Option<usize> },
    /// No command that is known.
    Unknown,
}

/// Mathematical view of a [`Command`].
pub enum CommandView {
    Init,
    Search { query: Option<Seq<char>>, limit: Option<nat> },
    Unknown,
}

impl View for Command {
    type V = CommandView;

    open spec fn view(&self) -> CommandView {
        match *self {
            Command::Init => CommandView::Init,
            Command::Search { query, limit } => CommandView::Search {
                query: match query {
                    Some(query) => Some(query@),
                    None => None,
                },
                limit: match limit {
                    Some(limit) => Some(limit as nat),
                    None => None,
                },
            },
            Command::Unknown => CommandView::Unknown,
        }
    }
}

/// The texts of `lines`.
pub open spec fn texts(lines: Seq<String>) -> Seq<Seq<char>> {
    Seq::new(lines.len(), |i: int| lines[i]@)
}

/// The lines that a command prints as it starts: `init` its banner,
/// `search` its query and its limit, and an unknown command the hint.
pub open spec fn announcement(command: CommandView) -> Seq<Seq<char>> {
    match command {
        CommandView::Init => seq!["Initializing..."@],
        CommandView::Search { query, limit } => seq![query_line(query), limit_line(limit)],
        CommandView::Unknown => seq![
            "Please provide a valid command. Use --help for more information."@,
        ],
    }
}

/// Whether a command runs an initialisation: `init` does, and no other.
pub open spec fn needs_init(command: CommandView) -> bool {
    command is Init
}

/// Whether a command ends in failure, where `outcome` is how its
/// initialisation ended, if one ran. `init` fails unless its initialisation
/// succeeded; `search` never fails; an unknown command always does.
pub open spec fn ends_in_failure(
    command: CommandView,
    outcome: Option<Result<PathView, InitErrorView>>,
) -> bool {
    match command {
        CommandView::Init => !(outcome matches Some(Ok(_))),
        CommandView::Search { query, limit } => false,
        CommandView::Unknown => true,
    }
}

impl Command {
    /// The lines that this command prints as it starts.
    pub fn announce(&self) -> (lines: Vec<String>)
        ensures
            texts(lines@) == announcement(self@),
    {
        match self {
            Command::Init => {
                let mut lines: Vec<String> = Vec::new();
                lines.push(init_banner());
                assert(texts(lines@) =~= announcement(self@));
                lines
            },
            Command::Search { query, limit } => {
                let query = match query {
                    Some(query) => Some(query.as_str()),
                    None => None,
                };
                let lines = search_report(query, *limit);
                assert(texts(lines@) =~= announcement(self@));
                lines
            },
            Command::Unknown => {
                let mut lines: Vec<String> = Vec::new();
                lines.push(usage_hint());
                assert(texts(lines@) =~= announcement(self@));
                lines
            },
        }
    }

    /// Whether this command runs an initialisation. A command that does not
    /// asks nothing of the disk.
    pub fn needs_init(&self) -> (needed: bool)
        ensures
            needed == needs_init(self@),
    {
        match self {
            Command::Init => true,
            _ => false,
        }
    }

    /// Whether this command ends in failure, where `outcome` is how its
    /// initialisation ended, if one ran.
    pub fn fails(&self, outcome: Option<&Result<DirPath, InitError>>) -> (failed: bool)
        ensures
            failed == ends_in_failure(
                self@,
                match outcome {
                    Some(Ok(root)) => Some(Ok(root@)),
                    Some(Err(error)) => Some(Err(error@)),
                    None => None,
                },
            ),
    {
        match self {
            Command::Init => match outcome {
                Some(Ok(_)) => false,
                _ => true,
            },
            Command::Search { query: _, limit: _ } => false,
            Command::Unknown => true,
        }
    }
}

/// How a command ends: the lines that it printed, whether it failed, and
/// the disk that it leaves.
pub struct CommandEnd {
    pub printed: Seq<Seq<char>>,
    pub failed: bool,
    pub disk: Disk,
}

/// The end of `command`, given in the directory `start` on `disk`. A command
/// that needs an initialisation runs one from `start` and reports how it
/// ended; any other command is over once it has printed its lines.
pub open spec fn command_run(
    command: CommandView,
    start: PathView,
    disk: Disk,
    faults: Faults,
    latest: nat,
) -> CommandEnd {
    if needs_init(command) {
        let (state, after) = init_run(start, disk, faults, latest);
        CommandEnd {
            printed: announcement(command).push(init_report_text(state->outcome)),
            failed: ends_in_failure(command, Some(state->outcome)),
            disk: after,
        }
    } else {
        CommandEnd {
            printed: announcement(command),
            failed: ends_in_failure(command, None),
            disk,
        }
    }
}

/// A search needs no initialisation and makes none: wherever it is given,
/// on a disk that was initialised or on any other, it prints its query and
/// its limit, succeeds, and leaves the disk as it was.
pub proof fn lemma_search_needs_no_init(
    query: Option<Seq<char>>,
    limit: Option<nat>,
    start: PathView,
    disk: Disk,
    faults: Faults,
    latest: nat,
)
    ensures
        command_run(CommandView::Search { query, limit }, start, disk, faults, latest) == (
        CommandEnd { printed: seq![query_line(query), limit_line(limit)], failed: false, disk }),
{
}

/// An unknown command prints the hint, fails, and leaves the disk as it
/// was.
pub proof fn lemma_unknown_command_fails(start: PathView, disk: Disk, faults: Faults, latest: nat)
    ensures
        command_run(CommandView::Unknown, start, disk, faults, latest) == (CommandEnd {
            printed: seq!["Please provide a valid command. Use --help for more information."@],
            failed: true,
            disk,
        }),
{
}

/// `init` prints its banner and then how its initialisation ended; it
/// fails exactly when the initialisation failed, and leaves the disk that
/// the initialisation leaves.
pub proof fn lemma_init_command_reports_initialisation(
    start: PathView,
    disk: Disk,
    faults: Faults,
    latest: nat,
)
    ensures
        init_run(start, disk, faults, latest).0 is Finished,
        command_run(CommandView::Init, start, disk, faults, latest) == (CommandEnd {
            printed: seq![
                "Initializing..."@,
                init_report_text(init_run(start, disk, faults, latest).0->outcome),
            ],
            failed: init_run(start, disk, faults, latest).0->outcome is Err,
            disk: init_run(start, disk, faults, latest).1,
        }),
{
    lemma_init_locates_then_provisions(start, disk, faults, latest);
    if let Some(root) = locate_root(disk, start) {
        lemma_provision_finishes(root, disk, faults, latest);
    }
    let end = command_run(CommandView::Init, start, disk, faults, latest);
    assert(end.printed =~= seq![
        "Initializing..."@,
        init_report_text(init_run(start, disk, faults, latest).0->outcome),
    ]);
}

/// Outside any repository `init` fails and creates nothing: if neither
/// `start` nor any directory above it holds the marker, it prints its
/// banner and that no repository was found, fails, and leaves the disk as
/// it was.
pub proof fn lemma_init_command_fails_outside_repository(
    start: PathView,
    disk: Disk,
    faults: Faults,
    latest: nat,
)
    requires
        forall|levels: nat|
            levels <= start.len() ==> !is_marked(disk, #[trigger] ancestor(start, levels)),
    ensures
        command_run(CommandView::Init, start, disk, faults, latest) == (CommandEnd {
            printed: seq![
                "Initializing..."@,
                "Initialization failed: "@ + "no repository found"@,
            ],
            failed: true,
            disk,
        }),
{
    lemma_init_outside_repository_changes_nothing(start, disk, faults, latest);
    lemma_init_command_reports_initialisation(start, disk, faults, latest);
}

} // verus!
