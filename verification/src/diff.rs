//! The line-level difference between two consecutive commits of the index.
//!
//! A difference is a sequence of lines, each tagged with what happened to
//! the file it belongs to and with its origin: `'+'` for a line that the newer
//! commit adds, `'-'` for one that it removes.

use vstd::prelude::*;

verus! {

/// What happened to a file between two commits.
#[derive(Debug, Clone, Copy, PartialEq, Eq, Structural)]
pub enum DeltaKind {
    Unmodified,
    Added,
    Deleted,
    Modified,
    Renamed,
    Copied,
    Ignored,
    Untracked,
    Typechange,
    Unreadable,
    Conflicted,
}

impl DeltaKind {
    /// The index only ever gains files and lines: additions and modifications
    /// are analyzed, every other kind of change is passed over.
    pub open spec fn is_analyzed(self) -> bool {
        self is Added || self is Modified
    }

    /// Whether lines of a file changed in this way are analyzed.
    pub fn analyzed(self) -> (r: bool)
        ensures
            r == self.is_analyzed(),
    {
        match self {
            DeltaKind::Added | DeltaKind::Modified => true,
            _ => false,
        }
    }
}

/// The origin of a line that the newer commit adds.
pub const ORIGIN_ADDED: char = '+';

/// The origin of a line that the newer commit removes.
pub const ORIGIN_REMOVED: char = '-';

/// One line of a difference.
#[derive(Debug, Clone, PartialEq, Eq)]
pub struct DiffLine {
    pub delta: DeltaKind,
    pub origin: char,
    pub content: Vec<u8>,
}

impl DiffLine {
    /// A removed line of an analyzed file.
    pub open spec fn is_removal(self) -> bool {
        self.delta.is_analyzed() && self.origin == ORIGIN_REMOVED
    }

    /// An added line of an analyzed file.
    pub open spec fn is_addition(self) -> bool {
        self.delta.is_analyzed() && self.origin == ORIGIN_ADDED
    }

    /// A line of a file whose kind of change is not analyzed.
    pub open spec fn is_unsupported(self) -> bool {
        !self.delta.is_analyzed()
    }
}

/// The removed lines of a difference, in order.
pub open spec fn removals(diff: Seq<DiffLine>) -> Seq<DiffLine> {
    diff.filter(|line: DiffLine| line.is_removal())
}

/// The added lines of a difference, in order.
pub open spec fn additions(diff: Seq<DiffLine>) -> Seq<DiffLine> {
    diff.filter(|line: DiffLine| line.is_addition())
}

/// The lines of a difference that are passed over, in order.
pub open spec fn unsupported(diff: Seq<DiffLine>) -> Seq<DiffLine> {
    diff.filter(|line: DiffLine| line.is_unsupported())
}

/// What one pass over a difference finds: how many lines of each sort it
/// holds, and where the first removed and the first added line stand.
#[derive(Debug, Clone, Copy, PartialEq, Eq, Structural)]
pub struct DiffShape {
    pub removed: usize,
    pub added: usize,
    pub unsupported: usize,
    pub first_removed: Option<usize>,
    pub first_added: Option<usize>,
}

impl DiffShape {
    /// `self` describes `diff`: the counts are exact, and each `first_` index
    /// is that of the first line of its sort, `None` where there is none.
    pub open spec fn describes(self, diff: Seq<DiffLine>) -> bool {
        &&& self.removed == removals(diff).len()
        &&& self.added == additions(diff).len()
        &&& self.unsupported == unsupported(diff).len()
        &&& match self.first_removed {
            Some(at) => {
                &&& at < diff.len()
                &&& removals(diff).len() > 0
                &&& diff[at as int] == removals(diff)[0]
                &&& forall|j: int| 0 <= j < at ==> !(#[trigger] diff[j]).is_removal()
            },
            None => removals(diff).len() == 0,
        }
        &&& match self.first_added {
            Some(at) => {
                &&& at < diff.len()
                &&& additions(diff).len() > 0
                &&& diff[at as int] == additions(diff)[0]
                &&& forall|j: int| 0 <= j < at ==> !(#[trigger] diff[j]).is_addition()
            },
            None => additions(diff).len() == 0,
        }
    }
}

/// Counts the removed, added and passed-over lines of a difference.
pub fn shape_of(diff: &[DiffLine]) -> (shape: DiffShape)
    ensures
        shape.describes(diff@),
{
    let mut shape = DiffShape {
        removed: 0,
        added: 0,
        unsupported: 0,
        first_removed: None,
        first_added: None,
    };
    let mut i: usize = 0;
    while i < diff.len()
        invariant
            i <= diff.len(),
            shape.removed <= i,
            shape.added <= i,
            shape.unsupported <= i,
            shape.describes(diff@.take(i as int)),
            shape.first_removed is None ==> forall|j: int|
                0 <= j < i ==> !(#[trigger] diff@[j]).is_removal(),
            shape.first_added is None ==> forall|j: int|
                0 <= j < i ==> !(#[trigger] diff@[j]).is_addition(),
        decreases diff.len() - i,
    {
        let line = &diff[i];
        proof {
            let seen = diff@.take(i as int);
            diff@.lemma_take_succ_push(i as int);
            seen.lemma_filter_push(diff@[i as int], |line: DiffLine| line.is_removal());
            seen.lemma_filter_push(diff@[i as int], |line: DiffLine| line.is_addition());
            seen.lemma_filter_push(diff@[i as int], |line: DiffLine| line.is_unsupported());
        }
        if line.delta.analyzed() {
            if line.origin == ORIGIN_REMOVED {
                if shape.first_removed.is_none() {
                    shape.first_removed = Some(i);
                }
                shape.removed = shape.removed + 1;
            } else if line.origin == ORIGIN_ADDED {
                if shape.first_added.is_none() {
                    shape.first_added = Some(i);
                }
                shape.added = shape.added + 1;
            }
        } else {
            shape.unsupported = shape.unsupported + 1;
        }
        i = i + 1;
    }
    proof {
        diff@.lemma_take_len();
    }
    shape
}

} // verus!
