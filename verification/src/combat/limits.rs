//! Tests of the machine limits: whether a swing, a round or a simulation
//! can be played without leaving the machine integer.

use crate::arith::{abs, lemma_mul_monotone, max};
use crate::character::Character;
use crate::combat::attack::{attack_draws_admissible, AttackRolls};
use crate::combat::round::{
    can_run_round, draws_of, lemma_admissible_prefix, round_admissible_upto,
    round_draws_admissible, round_fits, round_length, round_state, RoundState,
};
use crate::combat::swing::{
    damage_draws_admissible, property_roll_admissible, swing_multiplier, DamageRolls, bane_dice, bane_limit, base_limit, can_swing, dice_rollable, lemma_mitigated_within,
    lemma_properties_limit_monotone, lemma_property_limit_not_negative, lemma_swing_limit_parts,
    mitigation_bound, properties_limit, property_limit, property_rollable, strength_of,
    strength_share, swing_bound, swing_limit, widest_multiplier,
};
use crate::combat::{AttackType, Combat, HitResult};
use crate::dice::Dice;
use crate::item::property::ItemProperty;
use crate::rules::{
    BANE_OF_ENEMIES_FACES, BANE_OF_ENEMIES_ROLLS, CONCEALMENT_DIE_FACES, HIT_DIE_FACES,
};
use vstd::prelude::*;

verus! {

/// The largest value of the machine integer, in the width of the tests.
pub const LIMIT: i64 = 0x7fff_ffff;

/// Product of two sizes that are no larger than a machine integer can be.
fn mul_sizes(a: i64, b: i64) -> (p: i64)
    requires
        0 <= a <= 0x8000_0000,
        0 <= b <= 0x8000_0001,
    ensures
        p == a * b,
        0 <= p <= 0x4000_0000_8000_0000,
{
    proof {
        lemma_mul_monotone(a as int, b as int, 0x8000_0000, 0x8000_0001);
    }
    a * b
}

/// Size of a machine integer.
fn size_of(a: i64) -> (r: i64)
    requires
        -0x8000_0001 <= a <= 0x8000_0001,
    ensures
        r == abs(a as int),
{
    if a < 0 {
        -a
    } else {
        a
    }
}

/// The largest factor that a swing of `attacker` is multiplied by.
pub fn widest_multiplier_of(attacker: &Character) -> (widest: i64)
    ensures
        widest == widest_multiplier(attacker),
        1 <= widest <= 0x8000_0001,
{
    let multiplier: i64 = attacker.crit_multiplier_wide();
    let size: i64 = size_of(multiplier);
    if size > 1 {
        size
    } else {
        1
    }
}

/// The most that one property can add to or take from one type in a
/// swing; none where that is more than the machine integer holds.
fn property_limit_of(p: &ItemProperty, widest: i64) -> (r: Option<i64>)
    requires
        1 <= widest <= 0x8000_0001,
    ensures
        match r {
            Some(limit) => limit == property_limit(*p, widest as int) && 0 <= limit <= LIMIT,
            None => property_limit(*p, widest as int) > LIMIT,
        },
{
    proof {
        lemma_property_limit_not_negative(*p, widest as int);
    }
    let limit: i64 = match p {
        ItemProperty::EnchantmentBonus(bonus) => mul_sizes(size_of(*bonus as i64), widest),
        ItemProperty::DamageBonus(damage) => {
            let largest: i64 = damage.amount.largest_total();
            if largest > LIMIT {
                proof {
                    lemma_mul_monotone(largest as int, 1, largest as int, widest as int);
                }
                return None;
            }
            mul_sizes(largest, widest)
        },
        ItemProperty::MassiveCrit(dice) => dice.largest_total(),
        _ => 0,
    };
    if limit > LIMIT {
        None
    } else {
        Some(limit)
    }
}

impl<'a> Combat<'a> {
    /// How far from zero the damage of one type can get while a swing of
    /// `attacker` is summed up; none where that is more than the machine
    /// integer holds.
    pub fn swing_limit_of(attacker: &Character) -> (r: Option<i64>)
        ensures
            match r {
                Some(limit) => limit == swing_limit(attacker) && 0 <= limit <= LIMIT,
                None => swing_limit(attacker) > LIMIT,
            },
    {
        let ghost props = attacker.weapon.item_properties@;
        let widest: i64 = widest_multiplier_of(attacker);
        proof {
            lemma_swing_limit_parts(attacker);
        }
        let strength: i64 = size_of(strength_of(attacker, AttackType::MainHand) as i64);
        let mut acc: i64 = mul_sizes(strength, widest);
        if acc > LIMIT {
            return None;
        }
        let largest: i64 = attacker.weapon.base.damage.largest_total();
        if largest > LIMIT {
            proof {
                lemma_mul_monotone(largest as int, 1, largest as int, widest as int);
            }
            return None;
        }
        acc = acc + mul_sizes(largest, widest);
        if acc > LIMIT {
            return None;
        }
        let mut i: usize = 0;
        while i < attacker.weapon.item_properties.len()
            invariant
                0 <= i <= props.len(),
                props == attacker.weapon.item_properties@,
                widest == widest_multiplier(attacker),
                1 <= widest <= 0x8000_0001,
                0 <= bane_limit(attacker),
                0 <= base_limit(attacker),
                acc == base_limit(attacker) + properties_limit(props, widest as int, i as int),
                0 <= acc <= LIMIT,
            decreases props.len() - i,
        {
            proof {
                lemma_properties_limit_monotone(props, widest as int, i as int, i + 1);
                lemma_properties_limit_monotone(props, widest as int, i + 1, props.len() as int);
            }
            match property_limit_of(&attacker.weapon.item_properties[i], widest) {
                None => {
                    return None;
                },
                Some(limit) => {
                    acc = acc + limit;
                    if acc > LIMIT {
                        return None;
                    }
                },
            }
            i = i + 1;
        }
        if attacker.has_bane_of_enemies() {
            let bane: i64 = Dice::new(BANE_OF_ENEMIES_ROLLS, BANE_OF_ENEMIES_FACES).largest_total();
            acc = acc + mul_sizes(bane, widest);
            if acc > LIMIT {
                return None;
            }
        }
        Some(acc)
    }

    /// How far from zero the damage of one type of one swing can get
    /// against a physical immunity of `immunity`; none where that is more
    /// than the machine integer holds.
    pub fn swing_bound_of(attacker: &Character, immunity: i32) -> (r: Option<i64>)
        ensures
            match r {
                Some(bound) => bound == mitigation_bound(swing_limit(attacker), immunity as int)
                    && 0 <= bound <= LIMIT,
                None => mitigation_bound(swing_limit(attacker), immunity as int) > LIMIT,
            },
    {
        proof {
            lemma_swing_limit_parts(attacker);
            lemma_mitigated_within(0, immunity as int, 0, swing_limit(attacker));
        }
        match Self::swing_limit_of(attacker) {
            None => None,
            Some(limit) => {
                if immunity > 100 {
                    let bound: i64 = mul_sizes(limit, immunity as i64) / 100;
                    if bound > LIMIT {
                        None
                    } else {
                        Some(bound)
                    }
                } else {
                    Some(limit)
                }
            },
        }
    }

    /// Tells whether all dice of a swing of `attacker` have a face to show
    /// where one is drawn.
    pub fn has_rollable_dice(attacker: &Character) -> (r: bool)
        ensures
            r == dice_rollable(attacker),
    {
        let dice = attacker.weapon.base.damage;
        if dice.rolls > 0 && dice.faces < 0 {
            return false;
        }
        let mut i: usize = 0;
        while i < attacker.weapon.item_properties.len()
            invariant
                0 <= i <= attacker.weapon.item_properties@.len(),
                forall|k: int|
                    0 <= k < i ==> property_rollable(#[trigger] attacker.weapon.item_properties@[k]),
            decreases attacker.weapon.item_properties@.len() - i,
        {
            let rollable: bool = match attacker.weapon.item_properties[i] {
                ItemProperty::DamageBonus(damage) => !(damage.amount.rolls > 0
                    && damage.amount.faces < 0),
                ItemProperty::MassiveCrit(dice) => !(dice.rolls > 0 && dice.faces < 0),
                _ => true,
            };
            if !rollable {
                assert(!property_rollable(attacker.weapon.item_properties@[i as int]));
                return false;
            }
            i = i + 1;
        }
        true
    }

    /// Tells whether the damage of a swing of `attacker` at `defender` can
    /// be summed up.
    pub fn can_resolve_damage(attacker: &Character, defender: &Character) -> (r: bool)
        ensures
            r == can_swing(attacker, defender),
    {
        if !attacker.weapon.is_usable() {
            return false;
        }
        let multiplier: i64 = attacker.crit_multiplier_wide();
        if multiplier < i32::MIN as i64 || multiplier > i32::MAX as i64 {
            return false;
        }
        Self::swing_bound_of(attacker, defender.physical_immunity).is_some()
    }

    /// Tells whether every swing of a round of `attacker` has an attack
    /// bonus that fits the machine integer.
    pub fn has_fitting_slots(attacker: &Character) -> (r: bool)
        requires
            i32::MIN <= attacker.attacks_per_round() <= i32::MAX,
        ensures
            r == (forall|n: int| #[trigger] attacker.attack_slot_fits(n)),
    {
        let total: i32 = attacker.total_apr();
        let mut n: i32 = 0;
        while n < total
            invariant
                0 <= n,
                total > 0 ==> n <= total,
                total == attacker.attacks_per_round(),
                forall|k: int| 1 <= k <= n ==> #[trigger] attacker.attack_slot_fits(k),
            decreases total - n,
        {
            let slot: i32 = n + 1;
            match attacker.attack_slot_wide(slot) {
                Some((bonus, _)) => {
                    if bonus < i32::MIN as i64 || bonus > i32::MAX as i64 {
                        assert(!attacker.attack_slot_fits(slot as int));
                        return false;
                    }
                },
                None => {},
            }
            n = n + 1;
        }
        assert forall|k: int| #[trigger] attacker.attack_slot_fits(k) by {
            if k < 1 || k > total {
                assert(attacker.attack_slot(k) is None);
            }
        }
        true
    }

    /// Tells whether a round of `attacker` against `defender` can be
    /// summed up.
    pub fn can_sum_round(attacker: &Character, defender: &Character) -> (r: bool)
        ensures
            r == round_fits(attacker, defender),
    {
        let total: i64 = attacker.total_apr_wide();
        if total < i32::MIN as i64 || total > i32::MAX as i64 {
            return false;
        }
        if total < 1 {
            return true;
        }
        if !Self::has_fitting_slots(attacker) {
            return false;
        }
        let threat: i64 = attacker.threat_range_wide();
        if threat < i32::MIN as i64 || threat > i32::MAX as i64 {
            return false;
        }
        if !Self::can_resolve_damage(attacker, defender) {
            return false;
        }
        match Self::swing_bound_of(attacker, defender.physical_immunity) {
            None => false,
            Some(bound) => mul_sizes(total, bound) <= LIMIT,
        }
    }

    /// Tells whether a round of `attacker` against `defender` can be
    /// played.
    pub fn can_resolve_round(attacker: &Character, defender: &Character) -> (r: bool)
        ensures
            r == can_run_round(attacker, defender),
    {
        if !Self::can_sum_round(attacker, defender) {
            return false;
        }
        attacker.total_apr_wide() < 1 || Self::has_rollable_dice(attacker)
    }
}

impl<'a> Combat<'a> {
    /// Tells whether the dice of a swing of `attacker` can have shown
    /// `rolls`.
    pub fn admits_damage_rolls(attacker: &Character, is_crit: bool, rolls: &DamageRolls) -> (r:
        bool)
        requires
            i32::MIN <= attacker.crit_multiplier() <= i32::MAX,
        ensures
            r == damage_draws_admissible(attacker, is_crit, rolls@),
    {
        let multiplier: i32 = if !is_crit {
            1
        } else {
            attacker.weapon_crit_multiplier()
        };
        if !attacker.weapon.base.damage.can_total_times(multiplier, rolls.weapon) {
            return false;
        }
        if rolls.properties.len() != attacker.weapon.item_properties.len() {
            return false;
        }
        let mut i: usize = 0;
        while i < attacker.weapon.item_properties.len()
            invariant
                0 <= i <= attacker.weapon.item_properties@.len(),
                rolls.properties@.len() == attacker.weapon.item_properties@.len(),
                multiplier == swing_multiplier(attacker, is_crit),
                forall|k: int|
                    0 <= k < i ==> property_roll_admissible(
                        #[trigger] attacker.weapon.item_properties@[k],
                        multiplier as int,
                        is_crit,
                        rolls.properties@[k] as int,
                    ),
            decreases attacker.weapon.item_properties@.len() - i,
        {
            let roll: i32 = rolls.properties[i];
            let admissible: bool = match attacker.weapon.item_properties[i] {
                ItemProperty::DamageBonus(damage) => damage.amount.can_total_times(
                    multiplier,
                    roll,
                ),
                ItemProperty::MassiveCrit(dice) => if is_crit {
                    dice.can_total(roll)
                } else {
                    roll == 0
                },
                _ => roll == 0,
            };
            if !admissible {
                assert(!property_roll_admissible(
                    attacker.weapon.item_properties@[i as int],
                    multiplier as int,
                    is_crit,
                    rolls.properties@[i as int] as int,
                ));
                return false;
            }
            i = i + 1;
        }
        if attacker.has_bane_of_enemies() {
            Dice::new(BANE_OF_ENEMIES_ROLLS, BANE_OF_ENEMIES_FACES).can_total_times(
                multiplier,
                rolls.bane,
            )
        } else {
            rolls.bane == 0
        }
    }

    /// Tells whether the dice of one whole round can have shown `rolls`.
    pub fn admits_round_rolls(&self, rolls: &Vec<AttackRolls>) -> (r: bool)
        requires
            round_fits(self.attacker, self.defender),
        ensures
            r == round_draws_admissible(self.attacker, self.defender, draws_of(rolls@)),
    {
        let attacker = self.attacker;
        let defender = self.defender;
        let ghost draws = draws_of(rolls@);
        let ghost length = round_length(attacker);
        let total: i32 = attacker.total_apr();
        let wanted: usize = if total > 0 {
            total as usize
        } else {
            0
        };
        if rolls.len() != wanted {
            return false;
        }
        let mut can_dodge: bool = true;
        let mut i: i32 = 0;
        while i < total
            invariant
                0 <= i <= length,
                attacker == self.attacker,
                defender == self.defender,
                length == round_length(attacker),
                total == attacker.attacks_per_round(),
                round_fits(attacker, defender),
                draws == draws_of(rolls@),
                rolls@.len() == length,
                round_admissible_upto(attacker, defender, draws, i as int),
                round_state(attacker, defender, draws, i as int).can_dodge == can_dodge,
            decreases total - i,
        {
            let atk_no: i32 = i + 1;
            proof {
                assert(attacker.attack_slot_fits(atk_no as int));
                assert(draws[i as int] == rolls@[i as int]@);
            }
            match attacker.atk_ab(atk_no) {
                None => {},
                Some(atk_info) => {
                    let swing = &rolls[i as usize];
                    let result = Self::resolve_hit(
                        attacker,
                        defender,
                        atk_info,
                        can_dodge,
                        swing.conceal,
                        swing.hit,
                        swing.confirm,
                    );
                    let on_dice: bool = 1 <= swing.conceal && swing.conceal
                        <= CONCEALMENT_DIE_FACES && 1 <= swing.hit && swing.hit <= HIT_DIE_FACES
                        && 1 <= swing.confirm && swing.confirm <= HIT_DIE_FACES;
                    let admissible: bool = on_dice && (result.is_missed()
                        || Self::admits_damage_rolls(attacker, result.is_crit(), &swing.damage));
                    if !admissible {
                        proof {
                            assert(!attack_draws_admissible(
                                attacker,
                                defender,
                                atk_info.ab as int,
                                can_dodge,
                                draws[i as int],
                            ));
                            assert(!round_admissible_upto(attacker, defender, draws, i + 1));
                            if round_admissible_upto(attacker, defender, draws, length) {
                                lemma_admissible_prefix(attacker, defender, draws, i + 1, length);
                            }
                        }
                        return false;
                    }
                    match result {
                        HitResult::EpicDodged => {
                            can_dodge = false;
                        },
                        _ => {},
                    }
                },
            }
            i = i + 1;
        }
        true
    }
}

} // verus!
