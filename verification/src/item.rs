//! Items to be launched by an app.

use crate::matching::{score_of, score_text, Ratio, Score, ScoreMatchable};
use vstd::prelude::*;

verus! {

/// An item that an app can be launched with.
#[derive(Debug, PartialEq)]
pub struct AppLaunchItem {
    /// The human readable name
    pub name: String,
    /// The URI to launch when activating this item.
    pub uri: String,
}

impl ScoreMatchable for AppLaunchItem {
    /// The score of the name and the URI of this item against `terms`.
    open spec fn score(&self, terms: Seq<Seq<char>>) -> Ratio {
        score_of(self.name@, self.uri@, terms)
    }

    /// Compute the score of matching self against `terms`.
    ///
    /// If all terms match the name each term contributes a score of 10; this makes sure
    /// that precise matches in the name boost the score somewhat to the top.
    ///
    /// If all terms match the target each term contributes up to 1 to the score, scaled
    /// by the relative position of the right-most match, assuming that paths typically
    /// go from least to most specific segment: the farther to the right a term matches
    /// the more specific it was.
    fn match_score(&self, terms: &[&str]) -> (score: Score) {
        score_text(self.name.as_str(), self.uri.as_str(), terms)
    }
}

} // verus!
