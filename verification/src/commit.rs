//! Commits of the index, as far as this library looks at them.

use vstd::prelude::*;

verus! {

/// The name under which the index's automation authors its commits.
pub const CANONICAL_AUTHOR: &'static str = "bors";

/// A commit of the index.
///
/// `author` is `None` where the author's name is not valid text.
#[derive(Debug, Clone, PartialEq, Eq)]
pub struct Commit {
    pub id: String,
    pub author: Option<String>,
    pub message: String,
}

impl Commit {
    /// A commit is canonical when the index's automation authored it. Only
    /// such commits are known to change one line at a time.
    pub open spec fn is_canonical(&self) -> bool {
        self.author matches Some(name) && name@ == CANONICAL_AUTHOR@
    }

    /// Whether the index's automation authored this commit.
    pub fn canonical(&self) -> (r: bool)
        ensures
            r == self.is_canonical(),
    {
        match &self.author {
            Some(name) => {
                let expected = CANONICAL_AUTHOR.to_owned();
                *name == expected
            },
            None => false,
        }
    }
}

} // verus!
