//! The weapon templates that the rules know.

use super::damage::DamageType;
use super::weapon::WeaponBase;
use crate::dice::Dice;
use crate::size::SizeCategory;
use crate::string::same_text;
use vstd::prelude::*;

verus! {

/// Why a weapon template cannot be looked up.
#[derive(Clone, Copy, Debug, PartialEq, Eq, Structural)]
pub enum WeaponLookupError {
    /// The rules know no weapon of that name.
    UnknownWeapon,
}

/// The numbers of a weapon template: size, damage dice, natural threat
/// range, critical multiplier, and the type of its damage.
pub struct WeaponData {
    pub size: SizeCategory,
    pub damage: Dice,
    pub threat_range: i32,
    pub crit_multiplier: i32,
    pub damage_type: DamageType,
}

/// The numbers of the weapon called `name`, none for a name that the rules
/// do not know.
pub open spec fn weapon_data(name: Seq<char>) -> Option<WeaponData> {
    if name == "Rapier"@ {
        Some(
            WeaponData {
                size: SizeCategory::Medium,
                damage: Dice { rolls: 1, faces: 6 },
                threat_range: 18,
                crit_multiplier: 2,
                damage_type: DamageType::Piercing,
            },
        )
    } else if name == "Scimitar"@ {
        Some(
            WeaponData {
                size: SizeCategory::Medium,
                damage: Dice { rolls: 1, faces: 6 },
                threat_range: 18,
                crit_multiplier: 2,
                damage_type: DamageType::Slashing,
            },
        )
    } else if name == "Greatsword"@ {
        Some(
            WeaponData {
                size: SizeCategory::Large,
                damage: Dice { rolls: 2, faces: 6 },
                threat_range: 19,
                crit_multiplier: 2,
                damage_type: DamageType::Slashing,
            },
        )
    } else if name == "Double Axe"@ {
        Some(
            WeaponData {
                size: SizeCategory::Large,
                damage: Dice { rolls: 3, faces: 4 },
                threat_range: 20,
                crit_multiplier: 3,
                damage_type: DamageType::Slashing,
            },
        )
    } else {
        None
    }
}

/// Whether `base` is the template called `name` with the numbers `data`.
pub open spec fn is_template(base: WeaponBase, name: Seq<char>, data: WeaponData) -> bool {
    &&& base.name@ == name
    &&& base.size == data.size
    &&& base.damage == data.damage
    &&& base.threat_range == data.threat_range
    &&& base.crit_multiplier == data.crit_multiplier
    &&& base.damage_type@ == seq![data.damage_type]
}

fn template(
    name: &str,
    size: SizeCategory,
    rolls: i32,
    faces: i32,
    threat_range: i32,
    crit_multiplier: i32,
    damage_type: DamageType,
) -> (base: WeaponBase)
    ensures
        is_template(
            base,
            name@,
            WeaponData {
                size,
                damage: Dice { rolls, faces },
                threat_range,
                crit_multiplier,
                damage_type,
            },
        ),
{
    let mut types: Vec<DamageType> = Vec::new();
    types.push(damage_type);
    assert(types@ =~= seq![damage_type]);
    WeaponBase::new(
        String::from_str(name),
        size,
        Dice::new(rolls, faces),
        threat_range,
        crit_multiplier,
        types,
    )
}

/// Looks a weapon template up by its name.
pub fn find_weapon_base(name: &str) -> (r: Result<WeaponBase, WeaponLookupError>)
    ensures
        match r {
            Ok(base) => weapon_data(name@) matches Some(data) && is_template(base, name@, data),
            Err(e) => weapon_data(name@) is None && e == WeaponLookupError::UnknownWeapon,
        },
{
    if same_text(name, "Rapier") {
        Ok(template(name, SizeCategory::Medium, 1, 6, 18, 2, DamageType::Piercing))
    } else if same_text(name, "Scimitar") {
        Ok(template(name, SizeCategory::Medium, 1, 6, 18, 2, DamageType::Slashing))
    } else if same_text(name, "Greatsword") {
        Ok(template(name, SizeCategory::Large, 2, 6, 19, 2, DamageType::Slashing))
    } else if same_text(name, "Double Axe") {
        Ok(template(name, SizeCategory::Large, 3, 4, 20, 3, DamageType::Slashing))
    } else {
        Err(WeaponLookupError::UnknownWeapon)
    }
}

/// The weapon template called `name`.
pub fn get_weapon_base(name: &str) -> (base: WeaponBase)
    requires
        weapon_data(name@) is Some,
    ensures
        is_template(base, name@, weapon_data(name@)->0),
{
    match find_weapon_base(name) {
        Ok(base) => base,
        Err(_) => WeaponBase::default(),
    }
}

} // verus!
