//! Size categories of creatures and weapons.

use crate::string::{lowercase, lowercase_of, same_text};
use vstd::prelude::*;
use vstd::std_specs::convert::FromSpecImpl;

verus! {

/// How large a creature or a weapon is, from smallest to largest.
#[derive(Clone, Copy, Debug, PartialEq, Eq, PartialOrd, Structural)]
pub enum SizeCategory {
    Tiny,
    Small,
    Medium,
    Large,
    Huge,
    Unknown,
}

impl SizeCategory {
    /// Position of the category in the order of declaration.
    pub open spec fn rank(self) -> int {
        match self {
            SizeCategory::Tiny => 0,
            SizeCategory::Small => 1,
            SizeCategory::Medium => 2,
            SizeCategory::Large => 3,
            SizeCategory::Huge => 4,
            SizeCategory::Unknown => 5,
        }
    }

    /// Position of the category in the order of declaration.
    pub fn ordinal(&self) -> (r: u8)
        ensures
            r == self.rank(),
    {
        match self {
            SizeCategory::Tiny => 0,
            SizeCategory::Small => 1,
            SizeCategory::Medium => 2,
            SizeCategory::Large => 3,
            SizeCategory::Huge => 4,
            SizeCategory::Unknown => 5,
        }
    }

    /// Whether `self` comes strictly after `other` in the order of declaration.
    pub fn exceeds(&self, other: &SizeCategory) -> (r: bool)
        ensures
            r == (self.rank() > other.rank()),
    {
        self.ordinal() > other.ordinal()
    }
}

impl Default for SizeCategory {
    fn default() -> (r: Self)
        ensures
            r == SizeCategory::Medium,
    {
        SizeCategory::Medium
    }
}

/// The category that a lower-case name stands for; a name that stands for
/// none is unknown.
pub open spec fn size_named(lower: Seq<char>) -> SizeCategory {
    if lower == "tiny"@ {
        SizeCategory::Tiny
    } else if lower == "small"@ {
        SizeCategory::Small
    } else if lower == "medium"@ {
        SizeCategory::Medium
    } else if lower == "large"@ {
        SizeCategory::Large
    } else if lower == "huge"@ {
        SizeCategory::Huge
    } else {
        SizeCategory::Unknown
    }
}

impl SizeCategory {
    /// The category that a lower-case name stands for.
    pub fn from_lowercase(lower: &str) -> (r: SizeCategory)
        ensures
            r == size_named(lower@),
    {
        if same_text(lower, "tiny") {
            SizeCategory::Tiny
        } else if same_text(lower, "small") {
            SizeCategory::Small
        } else if same_text(lower, "medium") {
            SizeCategory::Medium
        } else if same_text(lower, "large") {
            SizeCategory::Large
        } else if same_text(lower, "huge") {
            SizeCategory::Huge
        } else {
            SizeCategory::Unknown
        }
    }
}

impl From<&str> for SizeCategory {
    /// The category that a name stands for, whatever the case of its
    /// letters.
    fn from(value: &str) -> (r: Self) {
        let lower = lowercase(value);
        SizeCategory::from_lowercase(lower.as_str())
    }
}

impl FromSpecImpl<&str> for SizeCategory {
    open spec fn obeys_from_spec() -> bool {
        true
    }

    open spec fn from_spec(value: &str) -> Self {
        size_named(lowercase_of(value@))
    }
}

} // verus!
