//! Weapon templates and equipped weapons.

use super::damage::DamageType;
use super::property::{keen_increase, ItemProperty};
use crate::dice::Dice;
use crate::size::SizeCategory;
use vstd::prelude::*;

verus! {

/// Why a weapon cannot be put together.
#[derive(Clone, Copy, Debug, PartialEq, Eq, Structural)]
pub enum WeaponError {
    /// The template declares no damage type, so its damage has no type.
    NoDamageType,
}

/// Template data of a kind of weapon.
///
/// The first damage type is the type of the weapon's own damage.
#[derive(Debug)]
pub struct WeaponBase {
    pub name: String,
    pub size: SizeCategory,
    pub damage: Dice,
    pub threat_range: i32,
    pub crit_multiplier: i32,
    pub damage_type: Vec<DamageType>,
}

impl WeaponBase {
    pub fn new(
        name: String,
        size: SizeCategory,
        damage: Dice,
        threat_range: i32,
        crit_multiplier: i32,
        damage_type: Vec<DamageType>,
    ) -> (base: Self)
        ensures
            base == (WeaponBase { name, size, damage, threat_range, crit_multiplier, damage_type }),
    {
        WeaponBase { name, size, damage, threat_range, crit_multiplier, damage_type }
    }
}

impl Clone for WeaponBase {
    fn clone(&self) -> (base: Self)
        ensures
            base.name@ == self.name@,
            base.size == self.size,
            base.damage == self.damage,
            base.threat_range == self.threat_range,
            base.crit_multiplier == self.crit_multiplier,
            base.damage_type@ == self.damage_type@,
    {
        let mut damage_type: Vec<DamageType> = Vec::new();
        let mut i: usize = 0;
        while i < self.damage_type.len()
            invariant
                0 <= i <= self.damage_type.len(),
                damage_type@ == self.damage_type@.take(i as int),
            decreases self.damage_type.len() - i,
        {
            damage_type.push(self.damage_type[i]);
            assert(self.damage_type@.take(i + 1) =~= self.damage_type@.take(i as int).push(
                self.damage_type@[i as int],
            ));
            i = i + 1;
        }
        assert(self.damage_type@.take(i as int) =~= self.damage_type@);
        WeaponBase {
            name: self.name.clone(),
            size: self.size,
            damage: self.damage,
            threat_range: self.threat_range,
            crit_multiplier: self.crit_multiplier,
            damage_type,
        }
    }
}

impl Default for WeaponBase {
    fn default() -> (base: Self)
        ensures
            base.name@ == Seq::<char>::empty(),
            base.size == SizeCategory::Medium,
            base.damage == (Dice { rolls: 0, faces: 1 }),
            base.threat_range == 0,
            base.crit_multiplier == 0,
            base.damage_type@ == Seq::<DamageType>::empty(),
    {
        WeaponBase {
            name: String::new(),
            size: SizeCategory::Medium,
            damage: Dice::new(0, 1),
            threat_range: 0,
            crit_multiplier: 0,
            damage_type: Vec::new(),
        }
    }
}

/// The first positive critical-multiplier override at or after `start`.
pub open spec fn crit_override_from(props: Seq<ItemProperty>, start: int) -> Option<i32>
    decreases props.len() - start,
{
    if start < 0 || start >= props.len() {
        None
    } else {
        match props[start] {
            ItemProperty::CriticalMultiplierOverride(v) if v > 0 => Some(v),
            _ => crit_override_from(props, start + 1),
        }
    }
}

/// The first positive threat-range override at or after `start`.
pub open spec fn threat_override_from(props: Seq<ItemProperty>, start: int) -> Option<i32>
    decreases props.len() - start,
{
    if start < 0 || start >= props.len() {
        None
    } else {
        match props[start] {
            ItemProperty::ThreatRangeOverride(v) if v > 0 => Some(v),
            _ => threat_override_from(props, start + 1),
        }
    }
}

/// An equipped weapon: a template and the properties enchanted onto it.
#[derive(Debug)]
pub struct Weapon {
    pub name: String,
    pub base: WeaponBase,
    pub item_properties: Vec<ItemProperty>,
}

impl Weapon {
    /// Whether the weapon deals damage of a type: whether its template
    /// declares one.
    pub open spec fn has_damage_type(&self) -> bool {
        self.base.damage_type@.len() > 0
    }

    /// The type of the weapon's own damage: the first that its template
    /// declares.
    pub open spec fn primary_damage_type(&self) -> DamageType
        recommends
            self.has_damage_type(),
    {
        self.base.damage_type@[0]
    }

    /// Whether the weapon carries the Keen property.
    pub open spec fn keen(&self) -> bool {
        exists|i: int|
            0 <= i < self.item_properties@.len() && #[trigger] self.item_properties@[i]
                == ItemProperty::Keen
    }

    /// The weapon's own threat range: the natural one, widened by Keen.
    pub open spec fn keen_threat_range(&self) -> int {
        if self.keen() {
            self.base.threat_range - keen_increase(self.base.threat_range as int)
        } else {
            self.base.threat_range as int
        }
    }

    /// The critical-multiplier override in force: the first positive one in
    /// the order of the properties.
    pub open spec fn crit_override(&self) -> Option<i32> {
        crit_override_from(self.item_properties@, 0)
    }

    /// The threat-range override in force: the first positive one in the
    /// order of the properties.
    pub open spec fn threat_override(&self) -> Option<i32> {
        threat_override_from(self.item_properties@, 0)
    }

    pub fn new(name: String, base: WeaponBase, item_properties: Vec<ItemProperty>) -> (weapon: Self)
        ensures
            weapon == (Weapon { name, base, item_properties }),
    {
        Weapon { name, base, item_properties }
    }

    /// Puts a weapon together, and rejects a template without a damage type.
    pub fn try_new(name: String, base: WeaponBase, item_properties: Vec<ItemProperty>) -> (r:
        Result<Self, WeaponError>)
        ensures
            base.damage_type@.len() == 0 <==> r == Err::<Self, WeaponError>(
                WeaponError::NoDamageType,
            ),
            base.damage_type@.len() > 0 <==> r == Ok::<Self, WeaponError>(
                Weapon { name, base, item_properties },
            ),
    {
        if base.damage_type.len() == 0 {
            Err(WeaponError::NoDamageType)
        } else {
            Ok(Weapon { name, base, item_properties })
        }
    }

    /// Tells whether the weapon deals damage of a type.
    pub fn is_usable(&self) -> (r: bool)
        ensures
            r == self.has_damage_type(),
    {
        self.base.damage_type.len() > 0
    }

    pub fn is_keen(&self) -> (r: bool)
        ensures
            r == self.keen(),
    {
        let mut i: usize = 0;
        while i < self.item_properties.len()
            invariant
                0 <= i <= self.item_properties.len(),
                forall|k: int| 0 <= k < i ==> self.item_properties@[k] != ItemProperty::Keen,
            decreases self.item_properties.len() - i,
        {
            match self.item_properties[i] {
                ItemProperty::Keen => {
                    return true;
                },
                _ => {},
            }
            i = i + 1;
        }
        false
    }

    /// The weapon's own threat range, in a width that always holds it.
    pub fn threat_range_wide(&self) -> (r: i64)
        ensures
            r == self.keen_threat_range(),
    {
        let natural: i64 = self.base.threat_range as i64;
        if self.is_keen() {
            natural - (20 - natural + 1)
        } else {
            natural
        }
    }

    /// The weapon's own threat range: the natural one, widened by Keen.
    pub fn threat_range(&self) -> (r: i32)
        requires
            i32::MIN <= self.keen_threat_range() <= i32::MAX,
        ensures
            r == self.keen_threat_range(),
    {
        self.threat_range_wide() as i32
    }

    pub fn crit_multiplier(&self) -> (r: i32)
        ensures
            r == self.base.crit_multiplier,
    {
        self.base.crit_multiplier
    }

    /// The critical-multiplier override in force, if any.
    pub fn crit_multiplier_override(&self) -> (r: Option<i32>)
        ensures
            r == self.crit_override(),
    {
        let mut i: usize = 0;
        while i < self.item_properties.len()
            invariant
                0 <= i <= self.item_properties.len(),
                crit_override_from(self.item_properties@, 0) == crit_override_from(
                    self.item_properties@,
                    i as int,
                ),
            decreases self.item_properties.len() - i,
        {
            match self.item_properties[i] {
                ItemProperty::CriticalMultiplierOverride(value) => {
                    if value > 0 {
                        return Some(value);
                    }
                },
                _ => {},
            }
            i = i + 1;
        }
        None
    }

    /// The threat-range override in force, if any.
    pub fn threat_range_override(&self) -> (r: Option<i32>)
        ensures
            r == self.threat_override(),
    {
        let mut i: usize = 0;
        while i < self.item_properties.len()
            invariant
                0 <= i <= self.item_properties.len(),
                threat_override_from(self.item_properties@, 0) == threat_override_from(
                    self.item_properties@,
                    i as int,
                ),
            decreases self.item_properties.len() - i,
        {
            match self.item_properties[i] {
                ItemProperty::ThreatRangeOverride(value) => {
                    if value > 0 {
                        return Some(value);
                    }
                },
                _ => {},
            }
            i = i + 1;
        }
        None
    }
}

impl Default for Weapon {
    fn default() -> (weapon: Self)
        ensures
            weapon.name@ == Seq::<char>::empty(),
            weapon.base.name@ == Seq::<char>::empty(),
            weapon.base.size == SizeCategory::Medium,
            weapon.base.damage == (Dice { rolls: 0, faces: 1 }),
            weapon.base.threat_range == 0,
            weapon.base.crit_multiplier == 0,
            weapon.base.damage_type@ == Seq::<DamageType>::empty(),
            weapon.item_properties@ == Seq::<ItemProperty>::empty(),
    {
        Weapon { name: String::new(), base: WeaponBase::default(), item_properties: Vec::new() }
    }
}

/// An override is the first positive value of its kind: no property before
/// it holds a positive one, and a weapon without a positive one has none.
pub proof fn lemma_threat_override_is_first(props: Seq<ItemProperty>, start: int)
    requires
        0 <= start,
    ensures
        match threat_override_from(props, start) {
            Some(v) => exists|i: int|
                start <= i < props.len() && #[trigger] props[i] == ItemProperty::ThreatRangeOverride(
                    v,
                ) && v > 0 && forall|j: int|
                    start <= j < i ==> !(#[trigger] props[j] matches ItemProperty::ThreatRangeOverride(
                        w,
                    ) && w > 0),
            None => forall|j: int|
                start <= j < props.len() ==> !(#[trigger] props[j] matches ItemProperty::ThreatRangeOverride(
                    w,
                ) && w > 0),
        },
    decreases props.len() - start,
{
    if start < props.len() {
        lemma_threat_override_is_first(props, start + 1);
        match props[start] {
            ItemProperty::ThreatRangeOverride(v) if v > 0 => {
                assert(props[start] == ItemProperty::ThreatRangeOverride(v));
            },
            _ => {
                match threat_override_from(props, start + 1) {
                    Some(v) => {
                        let i = choose|i: int|
                            start + 1 <= i < props.len() && #[trigger] props[i]
                                == ItemProperty::ThreatRangeOverride(v) && v > 0 && forall|j: int|
                                start + 1 <= j < i ==> !(#[trigger] props[j] matches ItemProperty::ThreatRangeOverride(
                                    w,
                                ) && w > 0);
                        assert(props[i] == ItemProperty::ThreatRangeOverride(v));
                    },
                    None => {},
                }
            },
        }
    }
}

/// An override is the first positive value of its kind: no property before
/// it holds a positive one, and a weapon without a positive one has none.
pub proof fn lemma_crit_override_is_first(props: Seq<ItemProperty>, start: int)
    requires
        0 <= start,
    ensures
        match crit_override_from(props, start) {
            Some(v) => exists|i: int|
                start <= i < props.len() && #[trigger] props[i]
                    == ItemProperty::CriticalMultiplierOverride(v) && v > 0 && forall|j: int|
                    start <= j < i ==> !(#[trigger] props[j] matches ItemProperty::CriticalMultiplierOverride(
                        w,
                    ) && w > 0),
            None => forall|j: int|
                start <= j < props.len() ==> !(#[trigger] props[j] matches ItemProperty::CriticalMultiplierOverride(
                    w,
                ) && w > 0),
        },
    decreases props.len() - start,
{
    if start < props.len() {
        lemma_crit_override_is_first(props, start + 1);
        match props[start] {
            ItemProperty::CriticalMultiplierOverride(v) if v > 0 => {
                assert(props[start] == ItemProperty::CriticalMultiplierOverride(v));
            },
            _ => {
                match crit_override_from(props, start + 1) {
                    Some(v) => {
                        let i = choose|i: int|
                            start + 1 <= i < props.len() && #[trigger] props[i]
                                == ItemProperty::CriticalMultiplierOverride(v) && v > 0
                                && forall|j: int|
                                start + 1 <= j < i ==> !(#[trigger] props[j] matches ItemProperty::CriticalMultiplierOverride(
                                    w,
                                ) && w > 0);
                        assert(props[i] == ItemProperty::CriticalMultiplierOverride(v));
                    },
                    None => {},
                }
            },
        }
    }
}

} // verus!
