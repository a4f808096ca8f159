//! The schema migrations of the index store: an ordered list of scripts, of
//! which the first takes a fresh store to version 1, the next to version 2,
//! and so on. Scripts are only ever appended.

use vstd::prelude::*;

verus! {

/// The script of the first migration, which sets up the baseline tables.
pub open spec fn baseline_script() -> Seq<char> {
    "CREATE TABLE IF NOT EXISTS files (id INTEGER PRIMARY KEY, path TEXT NOT NULL UNIQUE);\n"@
}

/// An ordered list of migration scripts. The script at position `i` is the
/// migration to version `i + 1`.
#[derive(Debug, PartialEq, Eq)]
pub struct MigrationSet {
    pub scripts: Vec<String>,
}

impl View for MigrationSet {
    type V = Seq<Seq<char>>;

    open spec fn view(&self) -> Seq<Seq<char>> {
        Seq::new(self.scripts@.len(), |i: int| self.scripts@[i]@)
    }
}

impl MigrationSet {
    /// The migrations with these scripts, in this order.
    pub fn new(scripts: Vec<String>) -> (set: MigrationSet)
        ensures
            set.scripts == scripts,
    {
        MigrationSet { scripts }
    }

    /// The migrations that this library ships: the baseline schema alone.
    pub fn embedded() -> (set: MigrationSet)
        ensures
            set@ == seq![baseline_script()],
    {
        let mut scripts: Vec<String> = Vec::new();
        scripts.push(
            "CREATE TABLE IF NOT EXISTS files (id INTEGER PRIMARY KEY, path TEXT NOT NULL UNIQUE);\n".to_string(),
        );
        MigrationSet { scripts }
    }

    /// The highest version that these migrations lead to: their number.
    pub fn latest(&self) -> (version: usize)
        ensures
            version == self@.len(),
    {
        self.scripts.len()
    }

    /// The script of the migration to `version`, if there is one: versions
    /// run from 1 to [`Self::latest`].
    pub fn script(&self, version: usize) -> (script: Option<&String>)
        ensures
            match script {
                Some(text) => 1 <= version <= self@.len() && text@ == self@[version - 1],
                None => version == 0 || version > self@.len(),
            },
    {
        if version == 0 || version > self.scripts.len() {
            None
        } else {
            Some(&self.scripts[version - 1])
        }
    }
}

} // verus!
