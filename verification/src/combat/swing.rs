//! Damage of one swing: what the attacker's strength, weapon and feats
//! contribute, and what the defender takes off.

use crate::arith::{
    abs, div_wide, half_rounded, lemma_abs_mul, lemma_mul_bounds, lemma_mul_monotone,
    lemma_trunc_div_bounds, lemma_trunc_div_monotone, max, mul_wide, round_half, trunc_div,
};
use crate::character::Character;
use crate::combat::{AttackInfo, AttackType, Combat};
use crate::dice::Dice;
use crate::item::damage::{
    amount_in, lemma_added_within, map_within, with_added, DamageResult, DamageType,
};
use crate::item::property::ItemProperty;
use crate::rules::{BANE_OF_ENEMIES_FACES, BANE_OF_ENEMIES_ROLLS};
use vstd::prelude::*;

verus! {

/// The dice totals that the damage of one swing is made of.
///
/// `properties` holds one total for each property of the weapon, in their
/// order; a property that rolls no dice has 0.
pub struct DamageDraws {
    pub weapon: i32,
    pub properties: Seq<i32>,
    pub bane: i32,
}

/// The dice totals that the damage of one swing is made of, as rolled.
#[derive(Debug)]
pub struct DamageRolls {
    pub weapon: i32,
    pub properties: Vec<i32>,
    pub bane: i32,
}

impl View for DamageRolls {
    type V = DamageDraws;

    open spec fn view(&self) -> DamageDraws {
        DamageDraws { weapon: self.weapon, properties: self.properties@, bane: self.bane }
    }
}

/// The dice of the Bane of Enemies bonus.
pub open spec fn bane_dice() -> Dice {
    Dice { rolls: BANE_OF_ENEMIES_ROLLS, faces: BANE_OF_ENEMIES_FACES }
}

/// By how much the damage of a swing is multiplied: by the critical
/// multiplier in force for a critical hit, else by 1.
pub open spec fn swing_multiplier(attacker: &Character, is_crit: bool) -> int {
    if is_crit {
        attacker.crit_multiplier()
    } else {
        1
    }
}

/// What wielding a weapon in both hands adds to a strength modifier: the
/// excess of one and a half times the modifier, rounded to the nearest
/// whole number with a half away from zero, and never less than nothing.
pub open spec fn two_handed_extra(modifier: int) -> int {
    max(0, round_half(3 * modifier) - modifier)
}

/// The strength that goes into a swing before it is multiplied: the
/// modifier, raised for a weapon in both hands, and the whole halved by
/// machine division for an off-hand swing.
pub open spec fn strength_share(attacker: &Character, type_: AttackType) -> int {
    let modifier = attacker.abilities.str.modifier();
    let whole = modifier + if attacker.two_handed() {
        two_handed_extra(modifier)
    } else {
        0
    };
    if type_ == AttackType::OffHand {
        trunc_div(whole, 2)
    } else {
        whole
    }
}

/// What one property adds to a swing, and to which type: an enchantment
/// bonus its multiplied value to the weapon's type, damage dice their total
/// to their own type, massive-critical dice their total to the weapon's type
/// on a critical hit only.
pub open spec fn property_share(
    p: ItemProperty,
    primary: DamageType,
    multiplier: int,
    is_crit: bool,
    roll: int,
) -> Option<(DamageType, int)> {
    match p {
        ItemProperty::EnchantmentBonus(bonus) => Some((primary, bonus * multiplier)),
        ItemProperty::DamageBonus(damage) => Some((damage.type_, roll)),
        ItemProperty::MassiveCrit(_) => if is_crit {
            Some((primary, roll))
        } else {
            None
        },
        _ => None,
    }
}

/// `start` after the first `n` properties added their shares, in order.
pub open spec fn after_properties(
    start: Map<DamageType, int>,
    props: Seq<ItemProperty>,
    rolls: Seq<i32>,
    primary: DamageType,
    multiplier: int,
    is_crit: bool,
    n: int,
) -> Map<DamageType, int>
    decreases n,
{
    if n <= 0 {
        start
    } else {
        let before = after_properties(start, props, rolls, primary, multiplier, is_crit, n - 1);
        match property_share(props[n - 1], primary, multiplier, is_crit, rolls[n - 1] as int) {
            Some((t, amount)) => with_added(before, t, amount),
            None => before,
        }
    }
}

/// Damage of a swing by type, before the defender takes anything off.
pub open spec fn raw_damage(
    attacker: &Character,
    type_: AttackType,
    is_crit: bool,
    draws: DamageDraws,
) -> Map<DamageType, int> {
    let primary = attacker.weapon.primary_damage_type();
    let multiplier = swing_multiplier(attacker, is_crit);
    let strength = with_added(
        Map::empty(),
        primary,
        strength_share(attacker, type_) * multiplier,
    );
    let weapon = with_added(strength, primary, draws.weapon as int);
    let properties = after_properties(
        weapon,
        attacker.weapon.item_properties@,
        draws.properties,
        primary,
        multiplier,
        is_crit,
        attacker.weapon.item_properties@.len() as int,
    );
    if attacker.bane_of_enemies() {
        with_added(properties, primary, draws.bane as int)
    } else {
        properties
    }
}

/// What is left of `amount` after the defender's mitigation: a positive
/// immunity takes its percentage off, cut toward zero, then a positive
/// reduction takes its flat amount off; each step that applies clamps at
/// zero.
pub open spec fn mitigated(amount: int, immunity: int, reduction: int) -> int {
    let after_immunity = if immunity > 0 {
        max(0, amount - trunc_div(amount * immunity, 100))
    } else {
        amount
    };
    if reduction > 0 {
        max(0, after_immunity - reduction)
    } else {
        after_immunity
    }
}

/// Damage of a swing by type, as the defender takes it.
pub open spec fn swing_damage(
    attacker: &Character,
    defender: &Character,
    type_: AttackType,
    is_crit: bool,
    draws: DamageDraws,
) -> Map<DamageType, int> {
    let raw = raw_damage(attacker, type_, is_crit, draws);
    Map::new(
        |t: DamageType| raw.dom().contains(t),
        |t: DamageType| mitigated(raw[t], defender.immunity_to(t), defender.reduction_of(t)),
    )
}

/// Whether `roll` can be the total rolled for property `p`: a total of its
/// dice where it rolls any, else 0.
pub open spec fn property_roll_admissible(
    p: ItemProperty,
    multiplier: int,
    is_crit: bool,
    roll: int,
) -> bool {
    match p {
        ItemProperty::DamageBonus(damage) => damage.amount.admits_times(multiplier, roll),
        ItemProperty::MassiveCrit(dice) => if is_crit {
            dice.admits(roll)
        } else {
            roll == 0
        },
        _ => roll == 0,
    }
}

/// Whether `draws` can come out of the dice of a swing of `attacker`.
pub open spec fn damage_draws_admissible(
    attacker: &Character,
    is_crit: bool,
    draws: DamageDraws,
) -> bool {
    let multiplier = swing_multiplier(attacker, is_crit);
    let props = attacker.weapon.item_properties@;
    &&& attacker.weapon.base.damage.admits_times(multiplier, draws.weapon as int)
    &&& draws.properties.len() == props.len()
    &&& forall|i: int|
        0 <= i < props.len() ==> property_roll_admissible(
            #[trigger] props[i],
            multiplier,
            is_crit,
            draws.properties[i] as int,
        )
    &&& if attacker.bane_of_enemies() {
        bane_dice().admits_times(multiplier, draws.bane as int)
    } else {
        draws.bane == 0
    }
}

/// The largest factor that a swing of `attacker` is multiplied by, critical
/// or not.
pub open spec fn widest_multiplier(attacker: &Character) -> int {
    max(1, abs(attacker.crit_multiplier()))
}

/// The most that property `p` can add to or take from one type in a swing.
pub open spec fn property_limit(p: ItemProperty, widest: int) -> int {
    match p {
        ItemProperty::EnchantmentBonus(bonus) => abs(bonus as int) * widest,
        ItemProperty::DamageBonus(damage) => damage.amount.max_total() * widest,
        ItemProperty::MassiveCrit(dice) => dice.max_total(),
        _ => 0,
    }
}

/// The most that the first `n` properties can add to or take from one type.
pub open spec fn properties_limit(props: Seq<ItemProperty>, widest: int, n: int) -> int
    decreases n,
{
    if n <= 0 {
        0
    } else {
        properties_limit(props, widest, n - 1) + property_limit(props[n - 1], widest)
    }
}

/// The most that strength and the weapon's own dice can add to or take from
/// one type in a swing.
pub open spec fn base_limit(attacker: &Character) -> int {
    let widest = widest_multiplier(attacker);
    abs(strength_share(attacker, AttackType::MainHand)) * widest
        + attacker.weapon.base.damage.max_total() * widest
}

/// The most that Bane of Enemies can add in a swing.
pub open spec fn bane_limit(attacker: &Character) -> int {
    if attacker.bane_of_enemies() {
        bane_dice().max_total() * widest_multiplier(attacker)
    } else {
        0
    }
}

/// How far from zero the damage of one type can get while a swing of
/// `attacker` is summed up, whatever the dice show.
pub open spec fn swing_limit(attacker: &Character) -> int {
    base_limit(attacker) + properties_limit(
        attacker.weapon.item_properties@,
        widest_multiplier(attacker),
        attacker.weapon.item_properties@.len() as int,
    ) + bane_limit(attacker)
}

/// How far from zero an amount within `limit` can get under an immunity
/// of `immunity` percent: beyond the limit only where the immunity is above
/// a hundred.
pub open spec fn mitigation_bound(limit: int, immunity: int) -> int {
    if immunity > 100 {
        (limit * immunity) / 100
    } else {
        limit
    }
}

/// How far from zero the damage of one type of one swing can get.
pub open spec fn swing_bound(attacker: &Character, defender: &Character) -> int {
    mitigation_bound(swing_limit(attacker), defender.physical_immunity as int)
}

/// Whether a swing of `attacker` at `defender` can be summed up: the weapon
/// has a damage type, and the critical multiplier and every amount on the
/// way fit the machine integer.
pub open spec fn can_swing(attacker: &Character, defender: &Character) -> bool {
    &&& attacker.weapon.has_damage_type()
    &&& i32::MIN <= attacker.crit_multiplier() <= i32::MAX
    &&& swing_bound(attacker, defender) <= i32::MAX
}

/// Whether the dice of property `p` have a face to show where one is drawn.
pub open spec fn property_rollable(p: ItemProperty) -> bool {
    match p {
        ItemProperty::DamageBonus(damage) => damage.amount.rolls > 0 ==> damage.amount.faces >= 0,
        ItemProperty::MassiveCrit(dice) => dice.rolls > 0 ==> dice.faces >= 0,
        _ => true,
    }
}

/// Whether all dice of a swing of `attacker` have a face to show where one
/// is drawn.
pub open spec fn dice_rollable(attacker: &Character) -> bool {
    &&& attacker.weapon.base.damage.rolls > 0 ==> attacker.weapon.base.damage.faces >= 0
    &&& forall|i: int|
        0 <= i < attacker.weapon.item_properties@.len() ==> property_rollable(
            #[trigger] attacker.weapon.item_properties@[i],
        )
}

/// Both hands add half of a positive strength modifier, rounded up, and
/// nothing to any other.
pub proof fn lemma_two_handed_extra(modifier: int)
    ensures
        two_handed_extra(modifier) == if modifier > 0 {
            (modifier + 1) / 2
        } else {
            0
        },
{
}

/// A positive immunity and a positive reduction leave no amount below
/// zero, and leave nothing of an amount that is not positive.
pub proof fn lemma_mitigated_not_negative(amount: int, immunity: int, reduction: int)
    requires
        immunity > 0 || reduction > 0,
    ensures
        mitigated(amount, immunity, reduction) >= 0,
        amount <= 0 && immunity <= 100 ==> mitigated(amount, immunity, reduction) == 0,
{
    if immunity > 0 && amount <= 0 && immunity <= 100 {
        lemma_mul_bounds(amount, immunity, -amount, 100);
        lemma_trunc_div_monotone(amount * immunity, (-amount) * 100, 100);
        assert(amount * immunity <= 0) by (nonlinear_arith)
            requires
                amount <= 0,
                immunity > 0,
        ;
    }
}

/// The totals of rolled dice are not negative, and stay below the largest
/// total times the widest multiplier.
pub proof fn lemma_roll_within(dice: Dice, multiplier: int, widest: int, roll: int)
    requires
        dice.admits_times(multiplier, roll),
        multiplier <= widest,
        1 <= widest,
    ensures
        0 <= roll <= dice.max_total() * widest,
        0 <= dice.max_total() * widest,
{
    dice.lemma_totals();
    lemma_mul_monotone(dice.max_total(), 1, dice.max_total(), widest);
    if multiplier >= 1 {
        lemma_mul_monotone(multiplier, dice.min_total(), multiplier, dice.min_total());
        lemma_mul_monotone(multiplier, dice.max_total(), widest, dice.max_total());
        assert(widest * dice.max_total() == dice.max_total() * widest) by (nonlinear_arith);
    }
}

/// No property adds or takes more than its limit.
pub proof fn lemma_property_share_within(
    p: ItemProperty,
    primary: DamageType,
    multiplier: int,
    widest: int,
    is_crit: bool,
    roll: int,
)
    requires
        abs(multiplier) <= widest,
        1 <= widest,
        property_roll_admissible(p, multiplier, is_crit, roll),
    ensures
        0 <= property_limit(p, widest),
        property_share(p, primary, multiplier, is_crit, roll) matches Some((_, amount)) ==> abs(
            amount,
        ) <= property_limit(p, widest),
{
    match p {
        ItemProperty::EnchantmentBonus(bonus) => {
            lemma_abs_mul(bonus as int, multiplier);
            lemma_mul_monotone(abs(bonus as int), abs(multiplier), abs(bonus as int), widest);
        },
        ItemProperty::DamageBonus(damage) => {
            lemma_roll_within(damage.amount, multiplier, widest, roll);
        },
        ItemProperty::MassiveCrit(dice) => {
            dice.lemma_totals();
        },
        _ => {},
    }
}

/// The limit of a property is not negative.
pub proof fn lemma_property_limit_not_negative(p: ItemProperty, widest: int)
    requires
        1 <= widest,
    ensures
        0 <= property_limit(p, widest),
{
    match p {
        ItemProperty::EnchantmentBonus(bonus) => {
            lemma_mul_monotone(abs(bonus as int), 1, abs(bonus as int), widest);
        },
        ItemProperty::DamageBonus(damage) => {
            damage.amount.lemma_totals();
            lemma_mul_monotone(damage.amount.max_total(), 1, damage.amount.max_total(), widest);
        },
        ItemProperty::MassiveCrit(dice) => {
            dice.lemma_totals();
        },
        _ => {},
    }
}

/// The limit of the properties grows with their number.
pub proof fn lemma_properties_limit_monotone(
    props: Seq<ItemProperty>,
    widest: int,
    i: int,
    n: int,
)
    requires
        1 <= widest,
        0 <= i <= n,
    ensures
        0 <= properties_limit(props, widest, i) <= properties_limit(props, widest, n),
    decreases n,
{
    if n > 0 {
        lemma_property_limit_not_negative(props[n - 1], widest);
        if i < n {
            lemma_properties_limit_monotone(props, widest, i, n - 1);
        } else {
            lemma_properties_limit_monotone(props, widest, n - 1, n - 1);
        }
    }
}

/// The strength that goes into a swing is never larger than that of a
/// main-hand swing at the widest multiplier.
pub proof fn lemma_strength_within(
    attacker: &Character,
    type_: AttackType,
    multiplier: int,
    widest: int,
)
    requires
        abs(multiplier) <= widest,
        1 <= widest,
    ensures
        abs(strength_share(attacker, type_) * multiplier) <= abs(
            strength_share(attacker, AttackType::MainHand),
        ) * widest,
{
    let whole = strength_share(attacker, AttackType::MainHand);
    let share = strength_share(attacker, type_);
    lemma_trunc_div_bounds(whole, 2);
    assert(abs(share) <= abs(whole));
    lemma_abs_mul(share, multiplier);
    lemma_mul_monotone(abs(share), abs(multiplier), abs(whole), widest);
}

/// Mitigation keeps an amount within the bound of its limit, and so the
/// share that an immunity takes.
pub proof fn lemma_mitigated_within(amount: int, immunity: int, reduction: int, limit: int)
    requires
        abs(amount) <= limit,
    ensures
        limit <= mitigation_bound(limit, immunity),
        abs(mitigated(amount, immunity, reduction)) <= mitigation_bound(limit, immunity),
        immunity > 0 ==> abs(trunc_div(amount * immunity, 100)) <= mitigation_bound(
            limit,
            immunity,
        ),
        immunity > 0 ==> 0 <= max(0, amount - trunc_div(amount * immunity, 100))
            <= mitigation_bound(limit, immunity),
{
    if immunity > 0 {
        let share = trunc_div(amount * immunity, 100);
        if immunity > 100 {
            lemma_mul_bounds(amount, immunity, limit, immunity);
            lemma_trunc_div_monotone(amount * immunity, limit * immunity, 100);
            assert((limit * immunity) / 100 >= limit) by (nonlinear_arith)
                requires
                    limit >= 0,
                    immunity > 100,
            ;
        } else {
            lemma_mul_bounds(amount, immunity, limit, 100);
            lemma_trunc_div_monotone(amount * immunity, limit * 100, 100);
        }
        assert(abs(share) <= mitigation_bound(limit, immunity));
        if amount >= 0 {
            assert(amount * immunity >= 0) by (nonlinear_arith)
                requires
                    amount >= 0,
                    immunity > 0,
            ;
        } else {
            assert(amount * immunity <= 0) by (nonlinear_arith)
                requires
                    amount < 0,
                    immunity > 0,
            ;
        }
    }
}

/// No part of the limit of a swing is negative, so each part stays below
/// the whole.
pub proof fn lemma_swing_limit_parts(attacker: &Character)
    ensures
        1 <= widest_multiplier(attacker),
        0 <= abs(strength_share(attacker, AttackType::MainHand)) * widest_multiplier(attacker),
        0 <= attacker.weapon.base.damage.max_total() * widest_multiplier(attacker),
        0 <= base_limit(attacker),
        0 <= properties_limit(
            attacker.weapon.item_properties@,
            widest_multiplier(attacker),
            attacker.weapon.item_properties@.len() as int,
        ),
        0 <= bane_limit(attacker),
        0 <= swing_limit(attacker),
{
    let widest = widest_multiplier(attacker);
    let strength = abs(strength_share(attacker, AttackType::MainHand));
    let dice = attacker.weapon.base.damage;
    dice.lemma_totals();
    bane_dice().lemma_totals();
    lemma_mul_monotone(strength, 1, strength, widest);
    lemma_mul_monotone(dice.max_total(), 1, dice.max_total(), widest);
    lemma_mul_monotone(bane_dice().max_total(), 1, bane_dice().max_total(), widest);
    lemma_properties_limit_monotone(
        attacker.weapon.item_properties@,
        widest,
        0,
        attacker.weapon.item_properties@.len() as int,
    );
}

/// Dice whose largest total, at the widest multiplier, stays within the
/// machine integer can be rolled at any multiplier up to the widest.
pub proof fn lemma_limit_allows_rolls(dice: Dice, multiplier: int, widest: int)
    requires
        dice.rolls > 0 ==> dice.faces >= 0,
        multiplier <= widest,
        1 <= widest,
        dice.max_total() * widest <= i32::MAX,
    ensures
        dice.can_roll_times(multiplier),
        dice.can_roll(),
{
    dice.lemma_totals();
    lemma_mul_monotone(dice.max_total(), 1, dice.max_total(), widest);
    if multiplier >= 1 {
        lemma_mul_monotone(multiplier, dice.max_total(), widest, dice.max_total());
        assert(widest * dice.max_total() == dice.max_total() * widest) by (nonlinear_arith);
    }
}

/// The strength that goes into a swing before it is multiplied.
pub fn strength_of(attacker: &Character, type_: AttackType) -> (share: i32)
    ensures
        share == strength_share(attacker, type_),
{
    let str_mod: i64 = attacker.abilities.str.get_mod() as i64;
    let extra: i64 = if attacker.is_weapon_twohanded() {
        let raised: i64 = half_rounded(3 * str_mod) - str_mod;
        if raised > 0 {
            raised
        } else {
            0
        }
    } else {
        0
    };
    let whole: i64 = str_mod + extra;
    let share: i64 = match type_ {
        AttackType::OffHand => whole / 2,
        _ => whole,
    };
    share as i32
}

/// What strength adds to a swing, multiplied.
fn strength_bonus(attacker: &Character, type_: AttackType, multiplier: i32) -> (bonus: i64)
    ensures
        bonus == strength_share(attacker, type_) * multiplier,
{
    mul_wide(strength_of(attacker, type_), multiplier)
}

impl<'a> Combat<'a> {
    /// Sums up the damage of one swing from the totals that its dice showed.
    pub fn damage_from_rolls(
        attacker: &Character,
        defender: &Character,
        atk_info: AttackInfo,
        is_crit: bool,
        rolls: &DamageRolls,
    ) -> (result: DamageResult)
        requires
            can_swing(attacker, defender),
            damage_draws_admissible(attacker, is_crit, rolls@),
        ensures
            result@ == swing_damage(attacker, defender, atk_info.type_, is_crit, rolls@),
            result.within(swing_bound(attacker, defender)),
    {
        let ghost widest = widest_multiplier(attacker);
        let ghost limit = swing_limit(attacker);
        let ghost props = attacker.weapon.item_properties@;
        let mut dmg_result = DamageResult::new();
        let multiplier: i32 = if !is_crit {
            1
        } else {
            attacker.weapon_crit_multiplier()
        };
        let weapon_base_dmg_type: DamageType = attacker.weapon.base.damage_type[0];
        proof {
            lemma_strength_within(attacker, atk_info.type_, multiplier as int, widest);
            lemma_roll_within(
                attacker.weapon.base.damage,
                multiplier as int,
                widest,
                rolls.weapon as int,
            );
            lemma_properties_limit_monotone(props, widest, 0, props.len() as int);
            if attacker.bane_of_enemies() {
                lemma_roll_within(bane_dice(), multiplier as int, widest, rolls.bane as int);
            }
            lemma_mitigated_within(0, defender.physical_immunity as int, 0, limit);
        }
        // Strength.
        let ghost strength_limit = abs(strength_share(attacker, AttackType::MainHand)) * widest;
        let str_mod_bonus: i64 = strength_bonus(attacker, atk_info.type_, multiplier);
        proof {
            lemma_added_within(
                dmg_result@,
                weapon_base_dmg_type,
                str_mod_bonus as int,
                0,
                strength_limit,
            );
        }
        let _ = dmg_result.add(weapon_base_dmg_type, str_mod_bonus as i32);
        // The weapon's own dice.
        proof {
            lemma_added_within(
                dmg_result@,
                weapon_base_dmg_type,
                rolls.weapon as int,
                strength_limit,
                attacker.weapon.base.damage.max_total() * widest,
            );
        }
        let _ = dmg_result.add(weapon_base_dmg_type, rolls.weapon);
        let ghost weapon_part = dmg_result@;
        // The properties of the weapon.
        let mut i: usize = 0;
        while i < attacker.weapon.item_properties.len()
            invariant
                0 <= i <= props.len(),
                props == attacker.weapon.item_properties@,
                widest == widest_multiplier(attacker),
                abs(multiplier as int) <= widest,
                1 <= widest,
                multiplier == swing_multiplier(attacker, is_crit),
                damage_draws_admissible(attacker, is_crit, rolls@),
                dmg_result@ == after_properties(
                    weapon_part,
                    props,
                    rolls.properties@,
                    weapon_base_dmg_type,
                    multiplier as int,
                    is_crit,
                    i as int,
                ),
                dmg_result.within(base_limit(attacker) + properties_limit(props, widest, i as int)),
                base_limit(attacker) + properties_limit(props, widest, props.len() as int)
                    <= i32::MAX,
            decreases props.len() - i,
        {
            let ghost before = dmg_result@;
            let ghost so_far = base_limit(attacker) + properties_limit(props, widest, i as int);
            let ghost step = property_limit(props[i as int], widest);
            proof {
                lemma_property_share_within(
                    props[i as int],
                    weapon_base_dmg_type,
                    multiplier as int,
                    widest,
                    is_crit,
                    rolls.properties@[i as int] as int,
                );
                lemma_properties_limit_monotone(props, widest, i + 1, props.len() as int);
            }
            match attacker.weapon.item_properties[i] {
                ItemProperty::EnchantmentBonus(bonus) => {
                    let scaled: i64 = mul_wide(bonus, multiplier);
                    proof {
                        lemma_added_within(
                            before,
                            weapon_base_dmg_type,
                            scaled as int,
                            so_far,
                            step,
                        );
                    }
                    let _ = dmg_result.add(weapon_base_dmg_type, scaled as i32);
                },
                ItemProperty::DamageBonus(dmg) => {
                    proof {
                        lemma_added_within(
                            before,
                            dmg.type_,
                            rolls.properties@[i as int] as int,
                            so_far,
                            step,
                        );
                    }
                    let _ = dmg_result.add(dmg.type_, rolls.properties[i]);
                },
                ItemProperty::MassiveCrit(_) => {
                    if is_crit {
                        proof {
                            lemma_added_within(
                                before,
                                weapon_base_dmg_type,
                                rolls.properties@[i as int] as int,
                                so_far,
                                step,
                            );
                        }
                        let _ = dmg_result.add(weapon_base_dmg_type, rolls.properties[i]);
                    }
                },
                _ => {},
            }
            i = i + 1;
        }
        // Bane of Enemies.
        if attacker.has_bane_of_enemies() {
            proof {
                lemma_added_within(
                    dmg_result@,
                    weapon_base_dmg_type,
                    rolls.bane as int,
                    base_limit(attacker) + properties_limit(props, widest, props.len() as int),
                    bane_limit(attacker),
                );
            }
            let _ = dmg_result.add(weapon_base_dmg_type, rolls.bane);
        }
        let ghost raw = dmg_result@;
        assert(raw == raw_damage(attacker, atk_info.type_, is_crit, rolls@));
        assert(map_within(raw, limit));
        // What the defender takes off.
        let ghost bound = swing_bound(attacker, defender);
        let mut k: usize = 0;
        while k < 17
            invariant
                0 <= k <= 17,
                map_within(raw, limit),
                bound == mitigation_bound(limit, defender.physical_immunity as int),
                bound <= i32::MAX,
                forall|t: DamageType| dmg_result@.dom().contains(t) <==> raw.dom().contains(t),
                forall|t: DamageType|
                    raw.dom().contains(t) && t.ordinal() < k ==> #[trigger] dmg_result@[t]
                        == mitigated(raw[t], defender.immunity_to(t), defender.reduction_of(t)),
                forall|t: DamageType|
                    raw.dom().contains(t) && t.ordinal() >= k ==> #[trigger] dmg_result@[t]
                        == raw[t],
            decreases 17 - k,
        {
            let dmg_type = DamageType::from_index(k);
            if dmg_result.has(dmg_type) {
                let defender_dmg_immunity: i32 = defender.damage_immunity(dmg_type);
                let defender_dmg_reduction: i32 = defender.damage_reduction(dmg_type);
                let ghost amount = raw[dmg_type];
                proof {
                    assert(-limit <= amount_in(raw, dmg_type) <= limit);
                    lemma_mitigated_within(
                        amount,
                        defender_dmg_immunity as int,
                        defender_dmg_reduction as int,
                        limit,
                    );
                    if !dmg_type.physical() {
                        lemma_mitigated_within(amount, defender.physical_immunity as int, 0, limit);
                    }
                }
                if defender_dmg_immunity > 0 {
                    let share: i64 = div_wide(
                        mul_wide(dmg_result.get(dmg_type), defender_dmg_immunity),
                        100,
                    );
                    let _ = dmg_result.sub(dmg_type, share as i32);
                }
                if defender_dmg_reduction > 0 {
                    let _ = dmg_result.sub(dmg_type, defender_dmg_reduction);
                }
            }
            k = k + 1;
        }
        assert(dmg_result@ =~= swing_damage(attacker, defender, atk_info.type_, is_crit, rolls@));
        assert forall|t: DamageType| -bound <= #[trigger] amount_in(dmg_result@, t) <= bound by {
            assert(-limit <= amount_in(raw, t) <= limit);
            lemma_mitigated_within(
                amount_in(raw, t),
                defender.immunity_to(t),
                defender.reduction_of(t),
                limit,
            );
            if !t.physical() {
                lemma_mitigated_within(amount_in(raw, t), defender.physical_immunity as int, 0, limit);
            }
        }
        dmg_result
    }

    /// Rolls the dice of one swing: the weapon's own, those of its
    /// properties, and those of Bane of Enemies where the attacker has it.
    /// Massive-critical dice are rolled for a critical hit only.
    pub fn roll_damage(attacker: &Character, is_crit: bool) -> (rolls: DamageRolls)
        requires
            i32::MIN <= attacker.crit_multiplier() <= i32::MAX,
            swing_limit(attacker) <= i32::MAX,
            dice_rollable(attacker),
        ensures
            damage_draws_admissible(attacker, is_crit, rolls@),
    {
        let ghost widest = widest_multiplier(attacker);
        let ghost props = attacker.weapon.item_properties@;
        let multiplier: i32 = if !is_crit {
            1
        } else {
            attacker.weapon_crit_multiplier()
        };
        proof {
            lemma_properties_limit_monotone(props, widest, 0, props.len() as int);
            lemma_swing_limit_parts(attacker);
            lemma_limit_allows_rolls(attacker.weapon.base.damage, multiplier as int, widest);
            if attacker.bane_of_enemies() {
                lemma_limit_allows_rolls(bane_dice(), multiplier as int, widest);
            }
        }
        let weapon: i32 = attacker.weapon.base.damage.roll_m(multiplier);
        let mut properties: Vec<i32> = Vec::new();
        let mut i: usize = 0;
        while i < attacker.weapon.item_properties.len()
            invariant
                0 <= i <= props.len(),
                props == attacker.weapon.item_properties@,
                widest == widest_multiplier(attacker),
                multiplier == swing_multiplier(attacker, is_crit),
                multiplier <= widest,
                1 <= widest,
                dice_rollable(attacker),
                properties_limit(props, widest, props.len() as int) <= i32::MAX,
                properties@.len() == i,
                forall|k: int|
                    0 <= k < i ==> property_roll_admissible(
                        #[trigger] props[k],
                        multiplier as int,
                        is_crit,
                        properties@[k] as int,
                    ),
            decreases props.len() - i,
        {
            proof {
                lemma_properties_limit_monotone(props, widest, i as int, props.len() as int);
                lemma_properties_limit_monotone(props, widest, i + 1, props.len() as int);
                assert(property_rollable(props[i as int]));
            }
            let roll: i32 = match attacker.weapon.item_properties[i] {
                ItemProperty::DamageBonus(dmg) => {
                    proof {
                        lemma_limit_allows_rolls(dmg.amount, multiplier as int, widest);
                    }
                    dmg.roll_m(multiplier)
                },
                ItemProperty::MassiveCrit(dice) => {
                    if is_crit {
                        proof {
                            dice.lemma_totals();
                        }
                        dice.roll()
                    } else {
                        0
                    }
                },
                _ => 0,
            };
            properties.push(roll);
            i = i + 1;
        }
        let bane: i32 = if attacker.has_bane_of_enemies() {
            Dice::new(BANE_OF_ENEMIES_ROLLS, BANE_OF_ENEMIES_FACES).roll_m(multiplier)
        } else {
            0
        };
        DamageRolls { weapon, properties, bane }
    }

    /// Rolls the dice of one swing and sums up its damage.
    pub fn resolve_damage(
        attacker: &Character,
        defender: &Character,
        atk_info: AttackInfo,
        is_crit: bool,
    ) -> (result: DamageResult)
        requires
            can_swing(attacker, defender),
            dice_rollable(attacker),
        ensures
            exists|draws: DamageDraws|
                damage_draws_admissible(attacker, is_crit, draws) && result@ == #[trigger] swing_damage(
                    attacker,
                    defender,
                    atk_info.type_,
                    is_crit,
                    draws,
                ),
            result.within(swing_bound(attacker, defender)),
    {
        proof {
            lemma_swing_limit_parts(attacker);
            lemma_mitigated_within(0, defender.physical_immunity as int, 0, swing_limit(attacker));
        }
        let rolls = Self::roll_damage(attacker, is_crit);
        let result = Self::damage_from_rolls(attacker, defender, atk_info, is_crit, &rolls);
        assert(result@ == swing_damage(attacker, defender, atk_info.type_, is_crit, rolls@));
        result
    }
}

} // verus!
