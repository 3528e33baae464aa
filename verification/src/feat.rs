//! Feats: named capabilities that a character either has or lacks.

use vstd::prelude::*;

pub mod feat_db;

verus! {

/// A feat, identified by its name.
#[derive(Debug, PartialEq, Eq)]
pub struct Feat(pub String);

impl Feat {
    pub fn name(&self) -> (name: &String)
        ensures
            name@ == self.0@,
    {
        &self.0
    }

    /// The feat in words: its name.
    pub fn to_string(&self) -> (text: String)
        ensures
            text@ == self.0@,
    {
        self.0.clone()
    }

    /// Whether this feat and `other` carry one name.
    pub fn same_as(&self, other: &Feat) -> (r: bool)
        ensures
            r == (self.0@ == other.0@),
    {
        self.0 == other.0
    }
}

impl Clone for Feat {
    fn clone(&self) -> (feat: Self)
        ensures
            feat.0@ == self.0@,
    {
        Feat(self.0.clone())
    }
}

} // verus!
