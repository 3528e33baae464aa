//! Statistical estimation of melee combat outcomes.
//!
//! An attacker build is played against defender profiles for many rounds;
//! every swing is resolved from dice rolls by the rules in [`combat`], and
//! the outcomes are summed into per-profile statistics by [`simulator`].

pub mod arith;
pub mod character;
pub mod combat;
pub mod dice;
pub mod feat;
pub mod item;
pub mod report;
pub mod rules;
pub mod simulator;
pub mod size;
pub mod string;

pub use combat::{AttackInfo, AttackType, CombatStatistics, HitResult};
pub use size::SizeCategory;
