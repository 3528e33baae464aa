//! The feats that the rules know.

use super::Feat;
use vstd::prelude::*;

verus! {

/// How many feats the rules know.
pub const FEAT_COUNT: usize = 11;

/// Name of the `i`-th known feat.
pub open spec fn feat_name(i: int) -> Seq<char> {
    if i == 0 {
        "Critical Immunity"@
    } else if i == 1 {
        "Overwhelming Critical"@
    } else if i == 2 {
        "Blind Fight"@
    } else if i == 3 {
        "Bane of Enemies"@
    } else if i == 4 {
        "Dual Wielding"@
    } else if i == 5 {
        "Epic Dodge"@
    } else if i == 6 {
        "Increased Multiplier"@
    } else if i == 7 {
        "Improved Critical"@
    } else if i == 8 {
        "Ki Critical"@
    } else if i == 9 {
        "Weapon Specialization"@
    } else {
        "Epic Weapon Specialization"@
    }
}

/// Whether `name` is the name of a known feat.
pub open spec fn is_known_feat(name: Seq<char>) -> bool {
    exists|i: int| 0 <= i < 11 && #[trigger] feat_name(i) == name
}

/// Why a feat cannot be looked up.
#[derive(Clone, Copy, Debug, PartialEq, Eq, Structural)]
pub enum FeatError {
    /// The rules know no feat of that name.
    UnknownFeat,
}

fn known_name(i: usize) -> (name: &'static str)
    requires
        i < 11,
    ensures
        name@ == feat_name(i as int),
{
    if i == 0 {
        "Critical Immunity"
    } else if i == 1 {
        "Overwhelming Critical"
    } else if i == 2 {
        "Blind Fight"
    } else if i == 3 {
        "Bane of Enemies"
    } else if i == 4 {
        "Dual Wielding"
    } else if i == 5 {
        "Epic Dodge"
    } else if i == 6 {
        "Increased Multiplier"
    } else if i == 7 {
        "Improved Critical"
    } else if i == 8 {
        "Ki Critical"
    } else if i == 9 {
        "Weapon Specialization"
    } else {
        "Epic Weapon Specialization"
    }
}

/// All known feats, in a fixed order.
pub fn get_feat_list() -> (list: Vec<Feat>)
    ensures
        list.len() == 11,
        forall|i: int| 0 <= i < 11 ==> (#[trigger] list[i]).0@ == feat_name(i),
{
    let mut list: Vec<Feat> = Vec::new();
    let mut i: usize = 0;
    while i < 11
        invariant
            0 <= i <= 11,
            list.len() == i,
            forall|k: int| 0 <= k < i ==> (#[trigger] list[k]).0@ == feat_name(k),
        decreases 11 - i,
    {
        list.push(Feat(String::from_str(known_name(i))));
        i = i + 1;
    }
    list
}

/// Looks a feat up by its name.
pub fn find_feat(name: &str) -> (r: Result<Feat, FeatError>)
    ensures
        is_known_feat(name@) <==> r is Ok,
        !is_known_feat(name@) <==> r == Err::<Feat, FeatError>(FeatError::UnknownFeat),
        r matches Ok(feat) ==> feat.0@ == name@,
{
    let wanted = String::from_str(name);
    let mut i: usize = 0;
    while i < 11
        invariant
            0 <= i <= 11,
            wanted@ == name@,
            forall|k: int| 0 <= k < i ==> feat_name(k) != name@,
        decreases 11 - i,
    {
        let known = String::from_str(known_name(i));
        if known == wanted {
            assert(feat_name(i as int) == name@);
            return Ok(Feat(wanted));
        }
        i = i + 1;
    }
    Err(FeatError::UnknownFeat)
}

/// The known feat called `name`.
pub fn get_feat(name: &str) -> (feat: Feat)
    requires
        is_known_feat(name@),
    ensures
        feat.0@ == name@,
{
    Feat(String::from_str(name))
}

} // verus!
