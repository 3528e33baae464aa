//! One swing: concealment, the roll to hit, epic dodge, and the
//! confirmation of a critical hit.

use crate::arith::mul_wide;
use crate::character::Character;
use crate::combat::swing::{damage_draws_admissible, DamageDraws, DamageRolls};
use crate::combat::{AttackInfo, Combat, HitResult};
use crate::rules::{CONCEALMENT_DIE_FACES, HIT_DIE_FACES};
use vstd::prelude::*;

verus! {

/// Every die total that one swing can ask for.
///
/// A total that the swing does not come to ask for has no effect.
pub struct AttackDraws {
    pub conceal: i32,
    pub hit: i32,
    pub confirm: i32,
    pub damage: DamageDraws,
}

/// Every die total that one swing can ask for, as rolled.
#[derive(Debug)]
pub struct AttackRolls {
    pub conceal: i32,
    pub hit: i32,
    pub confirm: i32,
    pub damage: DamageRolls,
}

impl View for AttackRolls {
    type V = AttackDraws;

    open spec fn view(&self) -> AttackDraws {
        AttackDraws {
            conceal: self.conceal,
            hit: self.hit,
            confirm: self.confirm,
            damage: self.damage@,
        }
    }
}

/// The defender's concealment as the attacker meets it, in hundredths of a
/// percent: the square of the percentage against Blind Fight, which is the
/// percentage times itself over a hundred, else the percentage itself.
pub open spec fn effective_concealment(attacker: &Character, defender: &Character) -> int {
    if attacker.blind_fight() {
        defender.concealment * defender.concealment
    } else {
        defender.concealment * 100
    }
}

/// Whether a concealment of `effective` hundredths of a percent hides the
/// defender from a swing that rolled `roll` on the percentile die: there is
/// concealment, and the roll lies strictly below it.
pub open spec fn conceals(effective: int, roll: int) -> bool {
    effective > 0 && roll * 100 < effective
}

/// Whether a swing hits: a natural 1 never does, a natural 20 always does,
/// any other roll does where bonus and roll reach the armor class.
pub open spec fn lands(ab: int, roll: int, ac: int) -> bool {
    roll != 1 && (roll == HIT_DIE_FACES || ab + roll >= ac)
}

/// Whether a hit that rolled `roll` may be critical: the defender is not
/// immune, and the roll reaches the attacker's threat range.
pub open spec fn threatens(attacker: &Character, defender: &Character, roll: int) -> bool {
    !defender.crit_immune() && roll >= attacker.threat_range()
}

/// Whether a second roll confirms a critical hit: bonus and roll reach the
/// armor class.
pub open spec fn confirms(ab: int, roll: int, ac: int) -> bool {
    ab + roll >= ac
}

/// How a swing with attack bonus `ab` ends.
///
/// Concealment is tried first and ends the swing where it hides the
/// defender. A swing that hits is dodged where the defender has Epic Dodge
/// and has not used it this round. Any other hit is critical where it
/// threatens and the second roll confirms it.
pub open spec fn hit_result(
    attacker: &Character,
    defender: &Character,
    ab: int,
    can_dodge: bool,
    conceal: int,
    hit: int,
    confirm: int,
) -> HitResult {
    if conceals(effective_concealment(attacker, defender), conceal) {
        HitResult::TargetConcealed
    } else if !lands(ab, hit, defender.ac as int) {
        HitResult::Miss
    } else if defender.epic_dodge() && can_dodge {
        HitResult::EpicDodged
    } else if threatens(attacker, defender, hit) && confirms(ab, confirm, defender.ac as int) {
        HitResult::CriticalHit
    } else {
        HitResult::Hit
    }
}

/// Whether `draws` can come out of the dice of one swing: each roll lies on
/// its die, and the damage dice, where the swing hits, are those of the
/// attacker.
pub open spec fn attack_draws_admissible(
    attacker: &Character,
    defender: &Character,
    ab: int,
    can_dodge: bool,
    draws: AttackDraws,
) -> bool {
    let result = hit_result(
        attacker,
        defender,
        ab,
        can_dodge,
        draws.conceal as int,
        draws.hit as int,
        draws.confirm as int,
    );
    &&& 1 <= draws.conceal <= CONCEALMENT_DIE_FACES
    &&& 1 <= draws.hit <= HIT_DIE_FACES
    &&& 1 <= draws.confirm <= HIT_DIE_FACES
    &&& !result.missed() ==> damage_draws_admissible(
        attacker,
        result == HitResult::CriticalHit,
        draws.damage,
    )
}

/// Where concealment does not hide the defender, a natural 1 misses and a
/// natural 20 does not, whatever the attack bonus and the armor class.
pub proof fn lemma_natural_rolls(
    attacker: &Character,
    defender: &Character,
    ab: int,
    can_dodge: bool,
    conceal: int,
    confirm: int,
)
    requires
        !conceals(effective_concealment(attacker, defender), conceal),
    ensures
        hit_result(attacker, defender, ab, can_dodge, conceal, 1, confirm) == HitResult::Miss,
        hit_result(attacker, defender, ab, can_dodge, conceal, 20, confirm) != HitResult::Miss,
        hit_result(attacker, defender, ab, can_dodge, conceal, 20, confirm)
            != HitResult::TargetConcealed,
{
}

/// Against Blind Fight a concealment of `c` percent hides the defender from
/// the rolls below `c * c / 100`, without it from the rolls below `c`.
pub proof fn lemma_concealment(attacker: &Character, defender: &Character, roll: int)
    ensures
        attacker.blind_fight() ==> (conceals(effective_concealment(attacker, defender), roll)
            <==> defender.concealment != 0 && roll * 100 < defender.concealment
            * defender.concealment),
        !attacker.blind_fight() ==> (conceals(effective_concealment(attacker, defender), roll)
            <==> defender.concealment > 0 && roll < defender.concealment),
{
    let c = defender.concealment as int;
    assert(c != 0 ==> c * c > 0) by (nonlinear_arith);
    assert(c == 0 ==> c * c == 0) by (nonlinear_arith);
}

impl<'a> Combat<'a> {
    /// The defender's concealment as the attacker meets it, in hundredths
    /// of a percent.
    pub fn resolve_concealment(attacker: &Character, defender: &Character) -> (effective: i64)
        ensures
            effective == effective_concealment(attacker, defender),
    {
        if attacker.has_blind_fight() {
            mul_wide(defender.concealment, defender.concealment)
        } else {
            defender.concealment as i64 * 100
        }
    }

    /// Whether concealment hides the defender from a swing.
    pub fn is_concealed(effective: i64, roll: i32) -> (r: bool)
        ensures
            r == conceals(effective as int, roll as int),
    {
        effective > 0 && (roll as i64) * 100 < effective
    }

    /// Whether a swing hits.
    pub fn is_landing(ab: i32, roll: i32, ac: i32) -> (r: bool)
        ensures
            r == lands(ab as int, roll as int, ac as int),
    {
        roll != 1 && (roll == HIT_DIE_FACES || ab as i64 + roll as i64 >= ac as i64)
    }

    /// Whether a second roll confirms a critical hit.
    pub fn is_confirmed(ab: i32, roll: i32, ac: i32) -> (r: bool)
        ensures
            r == confirms(ab as int, roll as int, ac as int),
    {
        ab as i64 + roll as i64 >= ac as i64
    }

    /// Decides how a swing ends, from the rolls that it can ask for.
    pub fn resolve_hit(
        attacker: &Character,
        defender: &Character,
        atk_info: AttackInfo,
        can_dodge: bool,
        conceal: i32,
        hit: i32,
        confirm: i32,
    ) -> (r: HitResult)
        requires
            i32::MIN <= attacker.threat_range() <= i32::MAX,
        ensures
            r == hit_result(
                attacker,
                defender,
                atk_info.ab as int,
                can_dodge,
                conceal as int,
                hit as int,
                confirm as int,
            ),
    {
        let effective: i64 = Self::resolve_concealment(attacker, defender);
        if Self::is_concealed(effective, conceal) {
            return HitResult::TargetConcealed;
        }
        if !Self::is_landing(atk_info.ab, hit, defender.ac) {
            return HitResult::Miss;
        }
        if defender.has_epic_dodge() && can_dodge {
            return HitResult::EpicDodged;
        }
        if !defender.is_crit_immune() && hit >= attacker.weapon_threat_range()
            && Self::is_confirmed(atk_info.ab, confirm, defender.ac) {
            HitResult::CriticalHit
        } else {
            HitResult::Hit
        }
    }
}

} // verus!
