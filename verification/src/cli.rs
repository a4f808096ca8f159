//! What the command line reports: the lines that the `init` and `search`
//! commands print.

use crate::error::{message_of, InitError, InitErrorView};
use crate::layout::{DirPath, PathView};
use crate::text::{decimal, decimal_text};
use vstd::prelude::*;
use vstd::string::StringExecFns;

verus! {

/// The line that reports how an initialisation ended.
pub open spec fn init_report_text(outcome: Result<PathView, InitErrorView>) -> Seq<char> {
    match outcome {
        Ok(_) => "Initialization completed successfully."@,
        Err(error) => "Initialization failed: "@ + message_of(error),
    }
}

/// The line that reports the query of a search.
pub open spec fn query_line(query: Option<Seq<char>>) -> Seq<char> {
    match query {
        Some(query) => "Searching for: "@ + query,
        None => "Searching without a query."@,
    }
}

/// The line that reports the result limit of a search.
pub open spec fn limit_line(limit: Option<nat>) -> Seq<char> {
    match limit {
        Some(limit) => "Limit: "@ + decimal(limit),
        None => "Searching without a limit."@,
    }
}

/// The line that `init` prints before it starts.
pub fn init_banner() -> (line: String)
    ensures
        line@ == "Initializing..."@,
{
    "Initializing...".to_string()
}

/// The line that `init` prints when it is finished: a confirmation, or the
/// failure with the error's message.
pub fn init_report(outcome: &Result<DirPath, InitError>) -> (line: String)
    ensures
        line@ == init_report_text(
            match *outcome {
                Ok(root) => Ok(root@),
                Err(error) => Err(error@),
            },
        ),
{
    match outcome {
        Ok(_) => "Initialization completed successfully.".to_string(),
        Err(error) => {
            let mut line = "Initialization failed: ".to_string();
            line.append(error.message().as_str());
            line
        },
    }
}

/// The two lines that `search` prints: the query, or that there is none,
/// and the limit, or that there is none. No search is made.
pub fn search_report(query: Option<&str>, limit: Option<usize>) -> (lines: Vec<String>)
    ensures
        lines@.len() == 2,
        lines@[0]@ == query_line(
            match query {
                Some(query) => Some(query@),
                None => None,
            },
        ),
        lines@[1]@ == limit_line(
            match limit {
                Some(limit) => Some(limit as nat),
                None => None,
            },
        ),
{
    let mut lines: Vec<String> = Vec::new();
    let first = match query {
        Some(query) => {
            let mut line = "Searching for: ".to_string();
            line.append(query);
            line
        },
        None => "Searching without a query.".to_string(),
    };
    lines.push(first);
    let second = match limit {
        Some(limit) => {
            let mut line = "Limit: ".to_string();
            line.append(decimal_text(limit).as_str());
            line
        },
        None => "Searching without a limit.".to_string(),
    };
    lines.push(second);
    lines
}

/// The line printed when no known command was given.
pub fn usage_hint() -> (line: String)
    ensures
        line@ == "Please provide a valid command. Use --help for more information."@,
{
    "Please provide a valid command. Use --help for more information.".to_string()
}

} // verus!
