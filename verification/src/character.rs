//! Combatants: ability scores, feats, the equipped weapon, and the queries
//! that the combat engine asks of them.

use crate::arith::trunc_div;
use crate::combat::{AttackInfo, AttackType};
use crate::feat::feat_db::{feat_name, get_feat, is_known_feat};
use crate::feat::Feat;
use crate::item::damage::DamageType;
use crate::item::property::keen_increase;
use crate::item::weapon::Weapon;
use crate::rules::{
    CONSECUTIVE_ATTACK_AB_PENALTY, DUAL_WIELD_EXTRA_ATTACKS, DUAL_WIELD_EXTRA_ATTACK_AB_BONUS,
    INCREASED_MULTIPLIER_BONUS, KI_CRITICAL_THREAT_BONUS,
};
use crate::size::SizeCategory;
use crate::string::{decimal, decimal_text};
use vstd::prelude::*;
use vstd::std_specs::convert::FromSpecImpl;

verus! {

/// One ability score.
#[derive(Clone, Copy, Debug, PartialEq, Eq, Structural)]
pub struct AbilityScore(i32);

impl AbilityScore {
    /// The score itself.
    pub closed spec fn score(self) -> int {
        self.0 as int
    }

    /// The modifier that a score gives: a score below 10 counts one lower,
    /// then half of what lies above 10 is taken, by machine division.
    pub open spec fn modifier_of(score: int) -> int {
        trunc_div(
            score - (if score < 10 {
                1int
            } else {
                0int
            }) - 10,
            2,
        )
    }

    /// The modifier of this score.
    pub open spec fn modifier(self) -> int {
        Self::modifier_of(self.score())
    }

    /// The score itself.
    pub fn value(&self) -> (v: i32)
        ensures
            v == self.score(),
    {
        self.0
    }

    pub fn get_mod(&self) -> (m: i32)
        ensures
            m == self.modifier(),
            -0x4000_0005 <= m <= 0x4000_0000,
    {
        let score: i64 = self.0 as i64 - if self.0 < 10 {
            1i64
        } else {
            0i64
        };
        ((score - 10) / 2) as i32
    }
}

/// The modifier of a score is half of what lies above 10, rounded down,
/// for scores below 10 too.
pub proof fn lemma_modifier_rounds_down(score: int)
    ensures
        AbilityScore::modifier_of(score) == (score - 10) / 2,
{
}

impl Default for AbilityScore {
    fn default() -> (r: Self)
        ensures
            r.score() == 0,
    {
        AbilityScore(0)
    }
}

impl From<i32> for AbilityScore {
    fn from(value: i32) -> (r: Self) {
        AbilityScore(value)
    }
}

impl FromSpecImpl<i32> for AbilityScore {
    open spec fn obeys_from_spec() -> bool {
        true
    }

    closed spec fn from_spec(value: i32) -> Self {
        AbilityScore(value)
    }
}

/// What converting a machine integer gives: the score of that value.
pub proof fn lemma_score_from(value: i32)
    ensures
        <AbilityScore as vstd::std_specs::convert::FromSpec<i32>>::from_spec(value).score() == value,
{
}

/// The six ability scores of a character.
#[derive(Clone, Copy, Debug)]
pub struct AbilityList {
    pub str: AbilityScore,
    pub dex: AbilityScore,
    pub con: AbilityScore,
    pub int: AbilityScore,
    pub wis: AbilityScore,
    pub cha: AbilityScore,
}

impl Default for AbilityList {
    fn default() -> (r: Self)
        ensures
            r.str.score() == 0,
            r.dex.score() == 0,
            r.con.score() == 0,
            r.int.score() == 0,
            r.wis.score() == 0,
            r.cha.score() == 0,
    {
        AbilityList {
            str: AbilityScore(0),
            dex: AbilityScore(0),
            con: AbilityScore(0),
            int: AbilityScore(0),
            wis: AbilityScore(0),
            cha: AbilityScore(0),
        }
    }
}

impl AbilityList {
    pub fn builder() -> (b: AbilityListBuilder)
        ensures
            b.abilities.str.score() == 0,
            b.abilities.dex.score() == 0,
            b.abilities.con.score() == 0,
            b.abilities.int.score() == 0,
            b.abilities.wis.score() == 0,
            b.abilities.cha.score() == 0,
    {
        AbilityListBuilder::new()
    }
}

/// Sets the ability scores one by one; a score that is not set is 0.
pub struct AbilityListBuilder {
    pub abilities: AbilityList,
}

impl AbilityListBuilder {
    pub fn new() -> (b: Self)
        ensures
            b.abilities.str.score() == 0,
            b.abilities.dex.score() == 0,
            b.abilities.con.score() == 0,
            b.abilities.int.score() == 0,
            b.abilities.wis.score() == 0,
            b.abilities.cha.score() == 0,
    {
        Self { abilities: AbilityList::default() }
    }

    pub fn str(self, value: i32) -> (b: Self)
        ensures
            b.abilities.str.score() == value,
            b.abilities == (AbilityList { str: b.abilities.str, ..self.abilities }),
    {
        Self { abilities: AbilityList { str: AbilityScore(value), ..self.abilities } }
    }

    pub fn dex(self, value: i32) -> (b: Self)
        ensures
            b.abilities.dex.score() == value,
            b.abilities == (AbilityList { dex: b.abilities.dex, ..self.abilities }),
    {
        Self { abilities: AbilityList { dex: AbilityScore(value), ..self.abilities } }
    }

    pub fn con(self, value: i32) -> (b: Self)
        ensures
            b.abilities.con.score() == value,
            b.abilities == (AbilityList { con: b.abilities.con, ..self.abilities }),
    {
        Self { abilities: AbilityList { con: AbilityScore(value), ..self.abilities } }
    }

    pub fn int_(self, value: i32) -> (b: Self)
        ensures
            b.abilities.int.score() == value,
            b.abilities == (AbilityList { int: b.abilities.int, ..self.abilities }),
    {
        Self { abilities: AbilityList { int: AbilityScore(value), ..self.abilities } }
    }

    pub fn wis(self, value: i32) -> (b: Self)
        ensures
            b.abilities.wis.score() == value,
            b.abilities == (AbilityList { wis: b.abilities.wis, ..self.abilities }),
    {
        Self { abilities: AbilityList { wis: AbilityScore(value), ..self.abilities } }
    }

    pub fn cha(self, value: i32) -> (b: Self)
        ensures
            b.abilities.cha.score() == value,
            b.abilities == (AbilityList { cha: b.abilities.cha, ..self.abilities }),
    {
        Self { abilities: AbilityList { cha: AbilityScore(value), ..self.abilities } }
    }

    pub fn build(self) -> (abilities: AbilityList)
        ensures
            abilities == self.abilities,
    {
        self.abilities
    }
}

/// One combatant, as the engine reads it during a simulation.
#[derive(Debug)]
pub struct Character {
    pub name: String,
    pub size: SizeCategory,
    pub abilities: AbilityList,
    pub ac: i32,
    pub ab: i32,
    pub base_apr: i32,
    pub extra_apr: i32,
    pub concealment: i32,
    pub defensive_essence: i32,
    pub physical_immunity: i32,
    pub physical_dmg_reduction: i32,
    pub weapon: Weapon,
    pub feats: Vec<Feat>,
}

impl Character {
    /// Whether the character has a feat called `name`.
    pub open spec fn has_feat_named(&self, name: Seq<char>) -> bool {
        exists|i: int| 0 <= i < self.feats@.len() && (#[trigger] self.feats@[i]).0@ == name
    }

    pub open spec fn blind_fight(&self) -> bool {
        self.has_feat_named("Blind Fight"@)
    }

    pub open spec fn epic_dodge(&self) -> bool {
        self.has_feat_named("Epic Dodge"@)
    }

    pub open spec fn bane_of_enemies(&self) -> bool {
        self.has_feat_named("Bane of Enemies"@)
    }

    pub open spec fn dual_wielding(&self) -> bool {
        self.has_feat_named("Dual Wielding"@)
    }

    pub open spec fn crit_immune(&self) -> bool {
        self.has_feat_named("Critical Immunity"@)
    }

    pub open spec fn improved_critical(&self) -> bool {
        self.has_feat_named("Improved Critical"@)
    }

    pub open spec fn ki_critical(&self) -> bool {
        self.has_feat_named("Ki Critical"@)
    }

    pub open spec fn increased_multiplier(&self) -> bool {
        self.has_feat_named("Increased Multiplier"@)
    }

    /// Swings in one round: the base and extra attacks, and two off-hand
    /// swings for a dual wielder.
    pub open spec fn attacks_per_round(&self) -> int {
        self.base_apr + self.extra_apr + if self.dual_wielding() {
            DUAL_WIELD_EXTRA_ATTACKS as int
        } else {
            0
        }
    }

    /// Attack bonus and bucket of the `n`-th swing of a round, counted from
    /// 1; none for a swing that the round does not have.
    ///
    /// The main-hand swings come first, then the extra attacks, then the
    /// off-hand swings of a dual wielder. Within a bucket each swing after
    /// the first loses the penalty once more; the extra attacks of a dual
    /// wielder gain a flat bonus.
    pub open spec fn attack_slot(&self, n: int) -> Option<(int, AttackType)> {
        let total = self.attacks_per_round();
        if n < 1 || n > total {
            None
        } else if n <= self.base_apr {
            Some((self.ab - CONSECUTIVE_ATTACK_AB_PENALTY * (n - 1), AttackType::MainHand))
        } else if self.extra_apr > 0 && n <= self.base_apr + self.extra_apr {
            Some(
                (
                    self.ab - (n - self.base_apr - 1) * CONSECUTIVE_ATTACK_AB_PENALTY
                        + if self.dual_wielding() {
                        DUAL_WIELD_EXTRA_ATTACK_AB_BONUS as int
                    } else {
                        0
                    },
                    AttackType::Extra,
                ),
            )
        } else if self.dual_wielding() {
            Some(
                (
                    self.ab - (n - total + DUAL_WIELD_EXTRA_ATTACKS - 1)
                        * CONSECUTIVE_ATTACK_AB_PENALTY,
                    AttackType::OffHand,
                ),
            )
        } else {
            None
        }
    }

    /// Whether the `n`-th swing, if the round has it, has an attack bonus
    /// that fits the machine integer.
    pub open spec fn attack_slot_fits(&self, n: int) -> bool {
        match self.attack_slot(n) {
            Some((bonus, _)) => i32::MIN <= bonus <= i32::MAX,
            None => true,
        }
    }

    /// The critical multiplier in force: an override of the weapon as it
    /// stands, else the weapon's multiplier, one higher with Increased
    /// Multiplier.
    pub open spec fn crit_multiplier(&self) -> int {
        match self.weapon.crit_override() {
            Some(v) => v as int,
            None => self.weapon.base.crit_multiplier + if self.increased_multiplier() {
                INCREASED_MULTIPLIER_BONUS as int
            } else {
                0
            },
        }
    }

    /// The threat range in force: an override of the weapon as it stands,
    /// else the weapon's own threat range, widened once more by Improved
    /// Critical and by two more by Ki Critical.
    pub open spec fn threat_range(&self) -> int {
        match self.weapon.threat_override() {
            Some(v) => v as int,
            None => self.weapon.keen_threat_range() - (if self.improved_critical() {
                keen_increase(self.weapon.base.threat_range as int)
            } else {
                0
            }) - (if self.ki_critical() {
                KI_CRITICAL_THREAT_BONUS as int
            } else {
                0
            }),
        }
    }

    /// A weapon larger than its wielder is wielded in both hands.
    pub open spec fn two_handed(&self) -> bool {
        self.weapon.base.size.rank() > self.size.rank()
    }

    /// Percentage of damage of type `t` that the character shrugs off.
    pub open spec fn immunity_to(&self, t: DamageType) -> int {
        if t.physical() {
            self.physical_immunity as int
        } else {
            0
        }
    }

    /// Flat amount by which the character reduces damage of type `t`.
    pub open spec fn reduction_of(&self, t: DamageType) -> int {
        if t.physical() {
            self.physical_dmg_reduction as int
        } else {
            0
        }
    }

    pub fn builder() -> (b: CharacterBuilder)
        ensures
            b.character.is_blank(),
    {
        CharacterBuilder::new()
    }

    /// Swings in one round, in a width that always holds them.
    pub fn total_apr_wide(&self) -> (total: i64)
        ensures
            total == self.attacks_per_round(),
    {
        let dual: i64 = if self.is_dual_wielding() {
            DUAL_WIELD_EXTRA_ATTACKS as i64
        } else {
            0
        };
        self.base_apr as i64 + self.extra_apr as i64 + dual
    }

    pub fn total_apr(&self) -> (total: i32)
        requires
            i32::MIN <= self.attacks_per_round() <= i32::MAX,
        ensures
            total == self.attacks_per_round(),
    {
        self.total_apr_wide() as i32
    }

    pub fn has_feat(&self, feat: Feat) -> (r: bool)
        ensures
            r == self.has_feat_named(feat.0@),
    {
        let mut i: usize = 0;
        while i < self.feats.len()
            invariant
                0 <= i <= self.feats.len(),
                forall|k: int| 0 <= k < i ==> (#[trigger] self.feats@[k]).0@ != feat.0@,
            decreases self.feats.len() - i,
        {
            if self.feats[i].same_as(&feat) {
                return true;
            }
            i = i + 1;
        }
        false
    }

    pub fn has_blind_fight(&self) -> (r: bool)
        ensures
            r == self.blind_fight(),
    {
        assert(feat_name(2) == "Blind Fight"@);
        self.has_feat(get_feat("Blind Fight"))
    }

    pub fn has_epic_dodge(&self) -> (r: bool)
        ensures
            r == self.epic_dodge(),
    {
        assert(feat_name(5) == "Epic Dodge"@);
        self.has_feat(get_feat("Epic Dodge"))
    }

    pub fn has_bane_of_enemies(&self) -> (r: bool)
        ensures
            r == self.bane_of_enemies(),
    {
        assert(feat_name(3) == "Bane of Enemies"@);
        self.has_feat(get_feat("Bane of Enemies"))
    }

    pub fn has_weapon_spec(&self) -> (r: bool)
        ensures
            r == self.has_feat_named("Weapon Specialization"@),
    {
        assert(feat_name(9) == "Weapon Specialization"@);
        self.has_feat(get_feat("Weapon Specialization"))
    }

    pub fn has_epic_weapon_spec(&self) -> (r: bool)
        ensures
            r == self.has_feat_named("Epic Weapon Specialization"@),
    {
        assert(feat_name(10) == "Epic Weapon Specialization"@);
        self.has_feat(get_feat("Epic Weapon Specialization"))
    }

    pub fn is_dual_wielding(&self) -> (r: bool)
        ensures
            r == self.dual_wielding(),
    {
        assert(feat_name(4) == "Dual Wielding"@);
        self.has_feat(get_feat("Dual Wielding"))
    }

    pub fn is_crit_immune(&self) -> (r: bool)
        ensures
            r == self.crit_immune(),
    {
        assert(feat_name(0) == "Critical Immunity"@);
        self.has_feat(get_feat("Critical Immunity"))
    }

    pub fn has_improved_critical(&self) -> (r: bool)
        ensures
            r == self.improved_critical(),
    {
        assert(feat_name(7) == "Improved Critical"@);
        self.has_feat(get_feat("Improved Critical"))
    }

    pub fn has_ki_critical(&self) -> (r: bool)
        ensures
            r == self.ki_critical(),
    {
        assert(feat_name(8) == "Ki Critical"@);
        self.has_feat(get_feat("Ki Critical"))
    }

    pub fn has_increased_multiplier(&self) -> (r: bool)
        ensures
            r == self.increased_multiplier(),
    {
        assert(feat_name(6) == "Increased Multiplier"@);
        self.has_feat(get_feat("Increased Multiplier"))
    }

    /// Attack bonus and bucket of the `atk_no`-th swing of a round, counted
    /// from 1, with the bonus in a width that always holds it; none for a
    /// swing that the round does not have.
    pub fn attack_slot_wide(&self, atk_no: i32) -> (r: Option<(i64, AttackType)>)
        ensures
            match r {
                Some((bonus, type_)) => self.attack_slot(atk_no as int) == Some(
                    (bonus as int, type_),
                ),
                None => self.attack_slot(atk_no as int) is None,
            },
    {
        let total: i64 = self.total_apr_wide();
        let n: i64 = atk_no as i64;
        if n < 1 || n > total {
            return None;
        }
        let ab: i64 = self.ab as i64;
        let penalty: i64 = CONSECUTIVE_ATTACK_AB_PENALTY as i64;
        if atk_no <= self.base_apr {
            return Some((ab - penalty * (n - 1), AttackType::MainHand));
        }
        let dual: bool = self.is_dual_wielding();
        if self.extra_apr > 0 && n <= self.base_apr as i64 + self.extra_apr as i64 {
            let extra_atk_no: i64 = n - self.base_apr as i64;
            let extra_atk_ab: i64 = ab - (extra_atk_no - 1) * penalty + if dual {
                DUAL_WIELD_EXTRA_ATTACK_AB_BONUS as i64
            } else {
                0
            };
            return Some((extra_atk_ab, AttackType::Extra));
        }
        if dual {
            let dw_atk_no: i64 = n - total + DUAL_WIELD_EXTRA_ATTACKS as i64;
            return Some((ab - (dw_atk_no - 1) * penalty, AttackType::OffHand));
        }
        None
    }

    /// Attack bonus and bucket of the `atk_no`-th swing of a round, counted
    /// from 1; none for a swing that the round does not have.
    pub fn atk_ab(&self, atk_no: i32) -> (r: Option<AttackInfo>)
        requires
            self.attack_slot_fits(atk_no as int),
        ensures
            match r {
                Some(info) => self.attack_slot(atk_no as int) == Some(
                    (info.ab as int, info.type_),
                ),
                None => self.attack_slot(atk_no as int) is None,
            },
    {
        match self.attack_slot_wide(atk_no) {
            Some((bonus, type_)) => Some(AttackInfo::new(bonus as i32, type_)),
            None => None,
        }
    }

    /// The critical multiplier in force, in a width that always holds it.
    pub fn crit_multiplier_wide(&self) -> (r: i64)
        ensures
            r == self.crit_multiplier(),
    {
        if let Some(override_val) = self.weapon.crit_multiplier_override() {
            return override_val as i64;
        }
        let bonus: i64 = if self.has_increased_multiplier() {
            INCREASED_MULTIPLIER_BONUS as i64
        } else {
            0
        };
        self.weapon.crit_multiplier() as i64 + bonus
    }

    pub fn weapon_crit_multiplier(&self) -> (r: i32)
        requires
            i32::MIN <= self.crit_multiplier() <= i32::MAX,
        ensures
            r == self.crit_multiplier(),
    {
        self.crit_multiplier_wide() as i32
    }

    /// The threat range in force, in a width that always holds it.
    pub fn threat_range_wide(&self) -> (r: i64)
        ensures
            r == self.threat_range(),
    {
        if let Some(override_val) = self.weapon.threat_range_override() {
            return override_val as i64;
        }
        let natural: i64 = self.weapon.base.threat_range as i64;
        let widening: i64 = 20 - natural + 1;
        let own: i64 = if self.weapon.is_keen() {
            natural - widening
        } else {
            natural
        };
        let improved: i64 = if self.has_improved_critical() {
            widening
        } else {
            0
        };
        let ki: i64 = if self.has_ki_critical() {
            KI_CRITICAL_THREAT_BONUS as i64
        } else {
            0
        };
        own - improved - ki
    }

    pub fn weapon_threat_range(&self) -> (r: i32)
        requires
            i32::MIN <= self.threat_range() <= i32::MAX,
        ensures
            r == self.threat_range(),
    {
        self.threat_range_wide() as i32
    }

    pub fn is_weapon_twohanded(&self) -> (r: bool)
        ensures
            r == self.two_handed(),
    {
        self.weapon.base.size.exceeds(&self.size)
    }

    pub fn damage_immunity(&self, dmg_type: DamageType) -> (r: i32)
        ensures
            r == self.immunity_to(dmg_type),
    {
        if dmg_type.is_physical() {
            return self.physical_immunity;
        }
        0
    }

    pub fn damage_reduction(&self, dmg_type: DamageType) -> (r: i32)
        ensures
            r == self.reduction_of(dmg_type),
    {
        if dmg_type.is_physical() {
            return self.physical_dmg_reduction;
        }
        0
    }

    /// The weapon in words: its name, then in brackets the rolls that
    /// threaten a critical hit and the critical multiplier.
    pub open spec fn weapon_text(&self) -> Seq<char> {
        self.weapon.name@ + " ("@ + (if self.weapon.keen_threat_range() < 20 {
            decimal_text(self.threat_range()) + "-20"@
        } else {
            "20"@
        }) + " x"@ + decimal_text(self.crit_multiplier()) + ")"@
    }

    pub fn weapon_string(&self) -> (text: String)
        ensures
            text@ == self.weapon_text(),
    {
        let mut text = self.weapon.name.clone();
        text.append(" (");
        if self.weapon.threat_range_wide() < 20 {
            text.append(decimal(self.threat_range_wide()).as_str());
            text.append("-20");
        } else {
            text.append("20");
        }
        text.append(" x");
        text.append(decimal(self.crit_multiplier_wide()).as_str());
        text.append(")");
        assert(text@ =~= self.weapon_text());
        text
    }

    /// A character as the builder starts from: every number 0, medium size,
    /// no name, no feat, and a weapon without a template.
    pub open spec fn is_blank(&self) -> bool {
        &&& self.name@ == Seq::<char>::empty()
        &&& self.ac == 0
        &&& self.concealment == 0
        &&& self.defensive_essence == 0
        &&& self.physical_immunity == 0
        &&& self.feats@ == Seq::<Feat>::empty()
        &&& self.has_blank_build()
    }

    /// What a dummy keeps of a blank character: medium size, every ability
    /// score 0, no attack bonus, no attack, no damage reduction, and a
    /// weapon without a template.
    pub open spec fn has_blank_build(&self) -> bool {
        &&& self.size == SizeCategory::Medium
        &&& self.abilities.str.score() == 0
        &&& self.abilities.dex.score() == 0
        &&& self.abilities.con.score() == 0
        &&& self.abilities.int.score() == 0
        &&& self.abilities.wis.score() == 0
        &&& self.abilities.cha.score() == 0
        &&& self.ab == 0
        &&& self.base_apr == 0
        &&& self.extra_apr == 0
        &&& self.physical_dmg_reduction == 0
        &&& self.weapon.name@ == Seq::<char>::empty()
        &&& self.weapon.base.name@ == Seq::<char>::empty()
        &&& self.weapon.base.size == SizeCategory::Medium
        &&& self.weapon.base.damage == (crate::dice::Dice { rolls: 0, faces: 1 })
        &&& self.weapon.base.threat_range == 0
        &&& self.weapon.base.crit_multiplier == 0
        &&& self.weapon.base.damage_type@ == Seq::<DamageType>::empty()
        &&& self.weapon.item_properties@ == Seq::<crate::item::property::ItemProperty>::empty()
    }
}

impl Default for Character {
    fn default() -> (c: Self)
        ensures
            c.is_blank(),
    {
        Character {
            name: String::new(),
            size: SizeCategory::Medium,
            abilities: AbilityList::default(),
            ac: 0,
            ab: 0,
            base_apr: 0,
            extra_apr: 0,
            concealment: 0,
            defensive_essence: 0,
            physical_immunity: 0,
            physical_dmg_reduction: 0,
            weapon: Weapon::default(),
            feats: Vec::new(),
        }
    }
}

/// Sets the fields of a character one by one.
pub struct CharacterBuilder {
    pub character: Character,
}

impl Default for CharacterBuilder {
    fn default() -> (b: Self)
        ensures
            b.character.is_blank(),
    {
        CharacterBuilder::new()
    }
}

impl CharacterBuilder {
    pub fn new() -> (b: Self)
        ensures
            b.character.is_blank(),
    {
        Self { character: Character::default() }
    }

    /// The dummy that a damage test swings at by default: a blank
    /// character but for its name, its armor class and its defenses.
    pub fn standard_dummy(ac: i32) -> (b: Self)
        ensures
            b.character.name@ == "Standard Dummy"@,
            b.character.ac == ac,
            b.character.concealment == 50,
            b.character.physical_immunity == 10,
            b.character.defensive_essence == 5,
            b.character.feats@ == Seq::<Feat>::empty(),
            b.character.has_blank_build(),
    {
        Self::new().name(String::from_str("Standard Dummy")).ac(ac).concealment(
            50,
        ).physical_immunity(10).defensive_essence(5)
    }

    pub fn name(self, name: String) -> (b: Self)
        ensures
            b.character == (Character { name, ..self.character }),
    {
        let mut b = self;
        b.character.name = name;
        b
    }

    pub fn size(self, size: SizeCategory) -> (b: Self)
        ensures
            b.character == (Character { size, ..self.character }),
    {
        let mut b = self;
        b.character.size = size;
        b
    }

    pub fn abilities(self, abilities: AbilityList) -> (b: Self)
        ensures
            b.character == (Character { abilities, ..self.character }),
    {
        let mut b = self;
        b.character.abilities = abilities;
        b
    }

    pub fn ac(self, ac: i32) -> (b: Self)
        ensures
            b.character == (Character { ac, ..self.character }),
    {
        let mut b = self;
        b.character.ac = ac;
        b
    }

    pub fn ab(self, ab: i32) -> (b: Self)
        ensures
            b.character == (Character { ab, ..self.character }),
    {
        let mut b = self;
        b.character.ab = ab;
        b
    }

    pub fn base_apr(self, base_apr: i32) -> (b: Self)
        ensures
            b.character == (Character { base_apr, ..self.character }),
    {
        let mut b = self;
        b.character.base_apr = base_apr;
        b
    }

    pub fn extra_apr(self, extra_apr: i32) -> (b: Self)
        ensures
            b.character == (Character { extra_apr, ..self.character }),
    {
        let mut b = self;
        b.character.extra_apr = extra_apr;
        b
    }

    pub fn concealment(self, concealment: i32) -> (b: Self)
        ensures
            b.character == (Character { concealment, ..self.character }),
    {
        let mut b = self;
        b.character.concealment = concealment;
        b
    }

    pub fn defensive_essence(self, defensive_essence: i32) -> (b: Self)
        ensures
            b.character == (Character { defensive_essence, ..self.character }),
    {
        let mut b = self;
        b.character.defensive_essence = defensive_essence;
        b
    }

    pub fn physical_immunity(self, physical_immunity: i32) -> (b: Self)
        ensures
            b.character == (Character { physical_immunity, ..self.character }),
    {
        let mut b = self;
        b.character.physical_immunity = physical_immunity;
        b
    }

    pub fn physical_damage_reduction(self, physical_damage_reduction: i32) -> (b: Self)
        ensures
            b.character == (Character {
                physical_dmg_reduction: physical_damage_reduction,
                ..self.character
            }),
    {
        let mut b = self;
        b.character.physical_dmg_reduction = physical_damage_reduction;
        b
    }

    pub fn weapon(self, weapon: Weapon) -> (b: Self)
        ensures
            b.character == (Character { weapon, ..self.character }),
    {
        let mut b = self;
        b.character.weapon = weapon;
        b
    }

    pub fn feats(self, feats: Vec<Feat>) -> (b: Self)
        ensures
            b.character == (Character { feats, ..self.character }),
    {
        let mut b = self;
        b.character.feats = feats;
        b
    }

    pub fn add_feat(self, feat: Feat) -> (b: Self)
        ensures
            b.character.feats@ == self.character.feats@.push(feat),
            b.character == (Character { feats: b.character.feats, ..self.character }),
    {
        let mut b = self;
        b.character.feats.push(feat);
        b
    }

    pub fn build(self) -> (character: Character)
        ensures
            character == self.character,
    {
        self.character
    }
}

impl From<Character> for CharacterBuilder {
    fn from(value: Character) -> (b: Self) {
        Self { character: value }
    }
}

impl FromSpecImpl<Character> for CharacterBuilder {
    open spec fn obeys_from_spec() -> bool {
        true
    }

    open spec fn from_spec(value: Character) -> Self {
        CharacterBuilder { character: value }
    }
}

/// An override of the weapon is the threat range and the critical multiplier
/// as it stands, whatever Keen and the feats of the character would give.
pub proof fn lemma_override_is_verbatim(c: Character)
    ensures
        c.weapon.threat_override() matches Some(v) ==> c.threat_range() == v,
        c.weapon.crit_override() matches Some(v) ==> c.crit_multiplier() == v,
{
}

/// Without an override, Keen and Improved Critical each widen the natural
/// threat range by the same amount, and Ki Critical widens it by two more.
pub proof fn lemma_keen_stacks(c: Character)
    requires
        c.weapon.threat_override() is None,
    ensures
        c.threat_range() == c.weapon.base.threat_range - (if c.weapon.keen() {
            keen_increase(c.weapon.base.threat_range as int)
        } else {
            0
        }) - (if c.improved_critical() {
            keen_increase(c.weapon.base.threat_range as int)
        } else {
            0
        }) - (if c.ki_critical() {
            2int
        } else {
            0
        }),
{
}

/// The buckets of a round, for a character whose attack counts are not
/// negative: the main-hand swings, then the extra attacks, then the two
/// off-hand swings of a dual wielder. The index within a bucket starts anew
/// at 1, and each swing after the first of its bucket loses the penalty
/// once more.
pub proof fn lemma_attack_buckets(c: Character, n: int)
    requires
        0 <= c.base_apr,
        0 <= c.extra_apr,
    ensures
        (n < 1 || n > c.attacks_per_round()) ==> c.attack_slot(n) is None,
        1 <= n <= c.base_apr ==> c.attack_slot(n) == Some(
            (c.ab - 5 * (n - 1), AttackType::MainHand),
        ),
        c.base_apr < n <= c.base_apr + c.extra_apr ==> c.attack_slot(n) == Some(
            (
                c.ab - 5 * (n - c.base_apr - 1) + (if c.dual_wielding() {
                    2int
                } else {
                    0
                }),
                AttackType::Extra,
            ),
        ),
        c.dual_wielding() && c.base_apr + c.extra_apr < n <= c.base_apr + c.extra_apr + 2
            ==> c.attack_slot(n) == Some(
            (c.ab - 5 * (n - c.base_apr - c.extra_apr - 1), AttackType::OffHand),
        ),
{
}

} // verus!
