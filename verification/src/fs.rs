//! Matching things from filesystems.

use crate::matching::{score_of, score_text, Ratio, Score, ScoreMatchable};
use vstd::prelude::*;

verus! {

/// What a search provider shows of a recent item.
pub trait RecentItem {
    /// The human readable name of the item.
    fn name(&self) -> &str;

    /// A short description of the item.
    fn description(&self) -> &str;

    /// The URI to open the item with.
    fn uri(&self) -> &str;
}

/// A recent item from the file system.
#[derive(Debug, PartialEq)]
pub struct RecentFileSystemItem {
    /// The human readable name
    pub name: String,
    /// The path on the file system.
    ///
    /// The path doesn't need to be a filesystem path, strictly, as long as it's something
    /// that resembles a path, e.g. a URL.
    pub path: String,
}

impl ScoreMatchable for RecentFileSystemItem {
    /// The score of the name and the path of this item against `terms`.
    open spec fn score(&self, terms: Seq<Seq<char>>) -> Ratio {
        score_of(self.name@, self.path@, terms)
    }

    /// Compute the score of matching self against `terms`.
    ///
    /// If all terms match the name each term contributes a score of 10.  If all terms
    /// match the path each term contributes up to 1 to the score, scaled by the
    /// relative position of the right-most match.
    fn match_score(&self, terms: &[&str]) -> (score: Score) {
        score_text(self.name.as_str(), self.path.as_str(), terms)
    }
}

impl RecentItem for RecentFileSystemItem {
    fn name(&self) -> (name: &str)
        ensures
            name@ == self.name@,
    {
        self.name.as_str()
    }

    fn description(&self) -> (description: &str)
        ensures
            description@ == self.path@,
    {
        self.path.as_str()
    }

    fn uri(&self) -> (uri: &str)
        ensures
            uri@ == self.path@,
    {
        self.path.as_str()
    }
}

} // verus!
