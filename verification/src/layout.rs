//! Paths, and where the per-repository files live under a repository root.

use vstd::prelude::*;

verus! {

/// The names of a path's components, from the filesystem root downwards.
pub type PathView = Seq<Seq<char>>;

/// An absolute directory or file path, held as the names of its components
/// from the filesystem root downwards. The empty path is the filesystem root.
#[derive(Debug, PartialEq, Eq)]
pub struct DirPath {
    pub components: Vec<String>,
}

impl View for DirPath {
    type V = PathView;

    open spec fn view(&self) -> PathView {
        Seq::new(self.components@.len(), |i: int| self.components@[i]@)
    }
}

/// Name of the directory that marks a repository root.
pub open spec fn marker_name() -> Seq<char> {
    ".git"@
}

/// Name of the ignore-pattern file under a repository root.
pub open spec fn ignore_file_name() -> Seq<char> {
    ".cbignore"@
}

/// Name of the index store file under a repository root.
pub open spec fn store_file_name() -> Seq<char> {
    ".codebased.db"@
}

/// Initial content of a newly created ignore-pattern file: one comment line.
pub open spec fn ignore_file_placeholder() -> Seq<char> {
    "# Add patterns to ignore here, similar to .gitignore\n"@
}

/// Path of the marker directory that makes `dir` a repository root.
pub open spec fn marker_path(dir: PathView) -> PathView {
    dir.push(marker_name())
}

/// Path of the ignore-pattern file of the repository rooted at `root`.
pub open spec fn ignore_file_path(root: PathView) -> PathView {
    root.push(ignore_file_name())
}

/// Path of the index store of the repository rooted at `root`.
pub open spec fn store_path(root: PathView) -> PathView {
    root.push(store_file_name())
}

impl DirPath {
    /// The path made of `components`, outermost first.
    pub fn new(components: Vec<String>) -> (path: DirPath)
        ensures
            path.components == components,
    {
        DirPath { components }
    }

    /// Number of components below the filesystem root.
    pub fn depth(&self) -> (depth: usize)
        ensures
            depth == self@.len(),
    {
        self.components.len()
    }

    /// Moves to the parent directory. Returns `false`, and leaves the path as
    /// it is, at the filesystem root, which has no parent.
    pub fn pop(&mut self) -> (moved: bool)
        ensures
            moved == (old(self)@.len() > 0),
            moved ==> final(self)@ == old(self)@.drop_last(),
            !moved ==> final(self)@ == old(self)@,
    {
        let last = self.components.pop();
        last.is_some()
    }

    /// A copy of this path.
    pub fn duplicate(&self) -> (copy: DirPath)
        ensures
            copy@ == self@,
    {
        let mut components: Vec<String> = Vec::new();
        let mut i: usize = 0;
        while i < self.components.len()
            invariant
                i <= self.components@.len(),
                components@.len() == i,
                forall|k: int| 0 <= k < i ==> components@[k]@ == self.components@[k]@,
            decreases self.components@.len() - i,
        {
            components.push(self.components[i].clone());
            i = i + 1;
        }
        DirPath { components }
    }

    /// The path of the entry called `name` directly under this directory.
    pub fn child(&self, name: &str) -> (path: DirPath)
        ensures
            path@ == self@.push(name@),
    {
        let mut path = self.duplicate();
        path.components.push(name.to_string());
        path
    }

    /// Path of the marker directory that makes this directory a repository root.
    pub fn marker(&self) -> (path: DirPath)
        ensures
            path@ == marker_path(self@),
    {
        self.child(".git")
    }

    /// Path of the ignore-pattern file of the repository rooted here.
    pub fn ignore_file(&self) -> (path: DirPath)
        ensures
            path@ == ignore_file_path(self@),
    {
        self.child(".cbignore")
    }

    /// Path of the index store of the repository rooted here.
    pub fn store(&self) -> (path: DirPath)
        ensures
            path@ == store_path(self@),
    {
        self.child(".codebased.db")
    }
}

/// The initial content of a newly created ignore-pattern file.
pub fn placeholder_content() -> (content: String)
    ensures
        content@ == ignore_file_placeholder(),
{
    "# Add patterns to ignore here, similar to .gitignore\n".to_string()
}

/// The ignore-pattern file and the index store of one root are two files.
pub proof fn lemma_ignore_file_is_not_store(root: PathView)
    ensures
        ignore_file_path(root) != store_path(root),
{
    reveal_strlit(".cbignore");
    reveal_strlit(".codebased.db");
    assert(ignore_file_path(root).last() == ".cbignore"@);
    assert(store_path(root).last() == ".codebased.db"@);
    assert(".cbignore"@.len() != ".codebased.db"@.len());
}

/// Each root has a store of its own: the stores of two roots are two files.
pub proof fn lemma_store_path_identifies_root(root: PathView, other: PathView)
    requires
        root != other,
    ensures
        store_path(root) != store_path(other),
        ignore_file_path(root) != ignore_file_path(other),
{
    assert(store_path(root).drop_last() == root);
    assert(store_path(other).drop_last() == other);
    assert(ignore_file_path(root).drop_last() == root);
    assert(ignore_file_path(other).drop_last() == other);
}

} // verus!
