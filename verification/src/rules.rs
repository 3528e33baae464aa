//! Named constants of the rule set.

use vstd::prelude::*;

verus! {

/// Attack bonus lost by each further swing within one bucket of a round.
pub const CONSECUTIVE_ATTACK_AB_PENALTY: i32 = 5;

/// Attack bonus granted to the extra-attack bucket of a dual wielder.
pub const DUAL_WIELD_EXTRA_ATTACK_AB_BONUS: i32 = 2;

/// Off-hand swings that dual wielding adds to a round.
pub const DUAL_WIELD_EXTRA_ATTACKS: i32 = 2;

/// Threat range taken off by Ki Critical.
pub const KI_CRITICAL_THREAT_BONUS: i32 = 2;

/// Critical multiplier added by Increased Multiplier.
pub const INCREASED_MULTIPLIER_BONUS: i32 = 1;

/// Faces of the die rolled to hit and to confirm a critical.
pub const HIT_DIE_FACES: i32 = 20;

/// Faces of the die rolled against concealment.
pub const CONCEALMENT_DIE_FACES: i32 = 100;

/// Dice of the Bane of Enemies damage bonus.
pub const BANE_OF_ENEMIES_ROLLS: i32 = 2;

/// Faces of each Bane of Enemies die.
pub const BANE_OF_ENEMIES_FACES: i32 = 6;

} // verus!
