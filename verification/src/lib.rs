//! Bootstrap of a per-repository code-search index, written without I/O.
//!
//! The library decides; its caller touches the disk. A caller starts an
//! [`init::InitState`], performs the [`protocol::Request`] that the state
//! asks for, hands the [`protocol::Reply`] to [`init::run_init`], and repeats
//! until the state is finished. Every decision is a total function with a
//! contract over the mathematical views of these types. The module `disk`
//! models the disk, `run` whole runs against it, and `outcome` and `repeat`
//! prove what a run guarantees. The module `command` says what each command
//! of the command line prints and whether it needs the disk at all.

pub mod cli;
pub mod command;
pub mod disk;
pub mod error;
pub mod init;
pub mod layout;
pub mod locate;
pub mod outcome;
pub mod protocol;
pub mod provision;
pub mod repeat;
pub mod run;
pub mod schema;
pub mod text;
