//! Resolution of swings and rounds.

use crate::character::Character;
use crate::item::damage::{DamageResult, DamageType};
use vstd::prelude::*;

pub mod attack;
pub mod limits;
pub mod round;
pub mod swing;

verus! {

/// How a swing ended.
#[derive(Clone, Copy, Debug, PartialEq, Eq, Structural)]
pub enum HitResult {
    Hit,
    CriticalHit,
    Miss,
    TargetConcealed,
    EpicDodged,
}

impl Default for HitResult {
    fn default() -> (r: Self)
        ensures
            r == HitResult::Miss,
    {
        HitResult::Miss
    }
}

impl HitResult {
    /// Whether the swing dealt no damage.
    pub open spec fn missed(self) -> bool {
        self == HitResult::Miss || self == HitResult::TargetConcealed || self
            == HitResult::EpicDodged
    }

    pub fn is_missed(&self) -> (r: bool)
        ensures
            r == self.missed(),
    {
        match self {
            HitResult::Miss | HitResult::TargetConcealed | HitResult::EpicDodged => true,
            _ => false,
        }
    }

    pub fn is_crit(&self) -> (r: bool)
        ensures
            r == (*self == HitResult::CriticalHit),
    {
        match self {
            HitResult::CriticalHit => true,
            _ => false,
        }
    }
}

/// The bucket of a round that an attack slot falls into.
#[derive(Clone, Copy, Debug, PartialEq, Eq, Structural)]
pub enum AttackType {
    MainHand,
    OffHand,
    Extra,
}

impl AttackType {
    /// The bucket in words.
    pub open spec fn text(self) -> Seq<char> {
        match self {
            AttackType::MainHand => "AttackType::MainHand"@,
            AttackType::OffHand => "AttackType::OffHand"@,
            AttackType::Extra => "AttackType::Extra"@,
        }
    }

    pub fn to_string(&self) -> (text: String)
        ensures
            text@ == self.text(),
    {
        let text = match self {
            AttackType::MainHand => "AttackType::MainHand",
            AttackType::OffHand => "AttackType::OffHand",
            AttackType::Extra => "AttackType::Extra",
        };
        String::from_str(text)
    }
}

/// Attack bonus and bucket of one attack slot.
#[derive(Clone, Copy, Debug, PartialEq, Eq, Structural)]
pub struct AttackInfo {
    pub ab: i32,
    pub type_: AttackType,
}

impl AttackInfo {
    pub fn new(ab: i32, type_: AttackType) -> (info: Self)
        ensures
            info == (AttackInfo { ab, type_ }),
    {
        Self { ab, type_ }
    }
}

/// What the counters and totals of [`CombatStatistics`] stand for.
pub struct StatsView {
    pub total_hits: int,
    pub critical_hits: int,
    pub total_misses: int,
    pub concealed_attacks: int,
    pub epic_dodged_attacks: int,
    pub dmg_dealt: Map<DamageType, int>,
}

/// Outcomes of the swings at one defender, counted and summed.
///
/// Critical hits are counted among the hits, concealed and dodged swings
/// among the misses.
#[derive(Clone, Copy, Debug)]
pub struct CombatStatistics {
    pub total_hits: i64,
    pub critical_hits: i64,
    pub total_misses: i64,
    pub concealed_attacks: i64,
    pub epic_dodged_attacks: i64,
    pub dmg_dealt: DamageResult,
}

impl View for CombatStatistics {
    type V = StatsView;

    open spec fn view(&self) -> StatsView {
        StatsView {
            total_hits: self.total_hits as int,
            critical_hits: self.critical_hits as int,
            total_misses: self.total_misses as int,
            concealed_attacks: self.concealed_attacks as int,
            epic_dodged_attacks: self.epic_dodged_attacks as int,
            dmg_dealt: self.dmg_dealt@,
        }
    }
}

/// Statistics before any swing.
pub open spec fn blank_stats() -> StatsView {
    StatsView {
        total_hits: 0,
        critical_hits: 0,
        total_misses: 0,
        concealed_attacks: 0,
        epic_dodged_attacks: 0,
        dmg_dealt: Map::empty(),
    }
}

impl CombatStatistics {
    pub fn new() -> (stats: Self)
        ensures
            stats@ == blank_stats(),
    {
        CombatStatistics {
            total_hits: 0,
            critical_hits: 0,
            total_misses: 0,
            concealed_attacks: 0,
            epic_dodged_attacks: 0,
            dmg_dealt: DamageResult::new(),
        }
    }

    /// Swings counted: those that hit and those that missed.
    pub fn total_attacks(&self) -> (total: i64)
        requires
            i64::MIN <= self.total_hits + self.total_misses <= i64::MAX,
        ensures
            total == self.total_hits + self.total_misses,
    {
        self.total_hits + self.total_misses
    }
}

impl Default for CombatStatistics {
    fn default() -> (stats: Self)
        ensures
            stats@ == blank_stats(),
    {
        CombatStatistics::new()
    }
}

/// One attacker swinging at one defender.
pub struct Combat<'a> {
    pub attacker: &'a Character,
    pub defender: &'a Character,
}

impl<'a> Combat<'a> {
    pub fn new(attacker: &'a Character, defender: &'a Character) -> (combat: Self)
        ensures
            combat.attacker == attacker,
            combat.defender == defender,
    {
        Self { attacker, defender }
    }
}

} // verus!
