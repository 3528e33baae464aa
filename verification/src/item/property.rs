//! Properties that an enchanted item carries.

use super::damage::Damage;
use crate::dice::Dice;
use vstd::prelude::*;

verus! {

/// By how much Keen, or Improved Critical, widens a natural threat range:
/// by the number of rolls that threaten naturally.
pub open spec fn keen_increase(threat_range: int) -> int {
    20 - threat_range + 1
}

/// By how much Keen, or Improved Critical, widens a natural threat range.
pub fn get_keen_increase(threat_range: i32) -> (increase: i32)
    requires
        keen_increase(threat_range as int) <= i32::MAX,
    ensures
        increase == keen_increase(threat_range as int),
{
    20 - threat_range + 1
}

/// One property of a weapon.
///
/// An attack bonus is recorded and has no effect; an enchantment bonus adds
/// to damage only.
#[derive(Clone, Copy, Debug, PartialEq, Eq, Structural)]
pub enum ItemProperty {
    AttackBonus(i32),
    EnchantmentBonus(i32),
    DamageBonus(Damage),
    MassiveCrit(Dice),
    Keen,
    ThreatRangeOverride(i32),
    CriticalMultiplierOverride(i32),
}

} // verus!
