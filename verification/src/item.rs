//! Weapons, their properties, and the damage they deal.

pub mod damage;
pub mod property;
pub mod weapon;
pub mod weapon_db;

pub use damage::{Damage, DamageResult, DamageType};
pub use property::{get_keen_increase, ItemProperty};
pub use weapon::{Weapon, WeaponBase, WeaponError};
