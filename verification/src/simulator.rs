//! The simulation: many rounds against each defender profile, summed up.

use crate::arith::{lemma_mul_monotone, lemma_mul_step};
use crate::character::Character;
use crate::combat::attack::AttackDraws;
use crate::combat::round::{
    can_run_round, lemma_sum_within, round_draws_admissible, round_length, round_stats,
    stats_within,
};
use crate::combat::swing::{
    dice_rollable, lemma_mitigated_within, lemma_swing_limit_parts, mitigation_bound, swing_bound,
    swing_limit,
};
use crate::combat::{blank_stats, Combat, CombatStatistics, StatsView};
use crate::feat::feat_db::{feat_name, get_feat};
use crate::item::damage::{map_within, merged};
use std::collections::HashMap;
use vstd::prelude::*;

verus! {

/// Field by field, the sum of two statistics.
pub open spec fn sum_stats(a: StatsView, b: StatsView) -> StatsView {
    StatsView {
        total_hits: a.total_hits + b.total_hits,
        critical_hits: a.critical_hits + b.critical_hits,
        total_misses: a.total_misses + b.total_misses,
        concealed_attacks: a.concealed_attacks + b.concealed_attacks,
        epic_dodged_attacks: a.epic_dodged_attacks + b.epic_dodged_attacks,
        dmg_dealt: merged(a.dmg_dealt, b.dmg_dealt),
    }
}

/// The statistics of the first `n` rounds, where the dice of round `i`
/// showed `rounds[i - 1]`.
pub open spec fn simulation_stats(
    attacker: &Character,
    defender: &Character,
    rounds: Seq<Seq<AttackDraws>>,
    n: int,
) -> StatsView
    decreases n,
{
    if n <= 0 {
        blank_stats()
    } else {
        sum_stats(
            simulation_stats(attacker, defender, rounds, n - 1),
            round_stats(attacker, defender, rounds[n - 1]),
        )
    }
}

/// How many rounds a simulation of `total_rounds` plays.
pub open spec fn rounds_played(total_rounds: int) -> int {
    if total_rounds > 0 {
        total_rounds
    } else {
        0
    }
}

/// Whether `rounds` holds what the dice of a whole simulation can have
/// shown.
pub open spec fn simulation_admissible(
    attacker: &Character,
    defender: &Character,
    rounds: Seq<Seq<AttackDraws>>,
    total_rounds: int,
) -> bool {
    &&& rounds.len() == rounds_played(total_rounds)
    &&& forall|i: int|
        0 <= i < rounds.len() ==> round_draws_admissible(attacker, defender, #[trigger] rounds[i])
}

/// Whether `stats` can come out of a simulation of `total_rounds` rounds of
/// `attacker` against `defender`.
pub open spec fn is_simulation_of(
    stats: StatsView,
    attacker: &Character,
    defender: &Character,
    total_rounds: int,
) -> bool {
    exists|rounds: Seq<Seq<AttackDraws>>|
        simulation_admissible(attacker, defender, rounds, total_rounds) && stats
            == #[trigger] simulation_stats(attacker, defender, rounds, rounds.len() as int)
}

/// Whether `total_rounds` rounds can be played against a defender with a
/// physical immunity of `immunity`: where any round is played, a round can
/// be, and the machine integer holds every damage total of the simulation
/// whatever the dice show.
pub open spec fn can_simulate(attacker: &Character, immunity: int, total_rounds: int) -> bool {
    total_rounds >= 1 ==> {
        &&& i32::MIN <= attacker.attacks_per_round() <= i32::MAX
        &&& round_length(attacker) >= 1 ==> {
            &&& forall|n: int| #[trigger] attacker.attack_slot_fits(n)
            &&& i32::MIN <= attacker.threat_range() <= i32::MAX
            &&& attacker.weapon.has_damage_type()
            &&& i32::MIN <= attacker.crit_multiplier() <= i32::MAX
            &&& dice_rollable(attacker)
            &&& total_rounds * (round_length(attacker) * mitigation_bound(
                swing_limit(attacker),
                immunity,
            )) <= i32::MAX
        }
    }
}

/// Why a simulation cannot be played.
#[derive(Clone, Copy, Debug, PartialEq, Eq, Structural)]
pub enum SimulationError {
    /// The attacker's weapon declares no damage type.
    NoDamageType,
    /// Dice of the attacker would be drawn without a face to show.
    DiceWithoutFaces,
    /// A number of the simulation does not fit the machine integer.
    OutOfRange,
}

/// What keeps `total_rounds` rounds from being played against a defender
/// with a physical immunity of `immunity`, if anything does. Nothing does
/// where no round or no swing is asked for; else a number of swings out of
/// range is found first, then a weapon without a damage type, then dice
/// without faces, then any other number out of range.
pub open spec fn simulation_fault(
    attacker: &Character,
    immunity: int,
    total_rounds: int,
) -> Option<SimulationError> {
    if total_rounds < 1 {
        None
    } else if !(i32::MIN <= attacker.attacks_per_round() <= i32::MAX) {
        Some(SimulationError::OutOfRange)
    } else if round_length(attacker) < 1 {
        None
    } else if !attacker.weapon.has_damage_type() {
        Some(SimulationError::NoDamageType)
    } else if !dice_rollable(attacker) {
        Some(SimulationError::DiceWithoutFaces)
    } else if {
        &&& forall|n: int| #[trigger] attacker.attack_slot_fits(n)
        &&& i32::MIN <= attacker.threat_range() <= i32::MAX
        &&& i32::MIN <= attacker.crit_multiplier() <= i32::MAX
        &&& total_rounds * (round_length(attacker) * mitigation_bound(
            swing_limit(attacker),
            immunity,
        )) <= i32::MAX
    } {
        None
    } else {
        Some(SimulationError::OutOfRange)
    }
}

/// A simulation can be played where nothing keeps it from being played,
/// and there only.
pub proof fn lemma_fault_free(attacker: &Character, immunity: int, total_rounds: int)
    ensures
        simulation_fault(attacker, immunity, total_rounds) is None <==> can_simulate(
            attacker,
            immunity,
            total_rounds,
        ),
{
}

/// A simulation that can be played can play each of its rounds.
pub proof fn lemma_simulation_allows_round(
    attacker: &Character,
    defender: &Character,
    total_rounds: int,
)
    requires
        total_rounds >= 1,
        can_simulate(attacker, defender.physical_immunity as int, total_rounds),
    ensures
        can_run_round(attacker, defender),
        0 <= swing_bound(attacker, defender),
        0 <= round_length(attacker) * swing_bound(attacker, defender),
        total_rounds * (round_length(attacker) * swing_bound(attacker, defender)) <= i32::MAX,
{
    let bound = swing_bound(attacker, defender);
    let length = round_length(attacker);
    lemma_swing_limit_parts(attacker);
    lemma_mitigated_within(0, defender.physical_immunity as int, 0, swing_limit(attacker));
    lemma_mul_monotone(length, bound, length, bound);
    lemma_mul_monotone(1, length * bound, total_rounds, length * bound);
    if length >= 1 {
        lemma_mul_monotone(1, bound, length, bound);
    } else {
        assert(length * bound == 0) by (nonlinear_arith)
            requires
                length == 0,
        ;
        assert(total_rounds * (length * bound) == 0) by (nonlinear_arith)
            requires
                length * bound == 0,
        ;
    }
}

/// The first `n` rounds of a simulation depend on the first `n` draws only.
pub proof fn lemma_simulation_prefix(
    attacker: &Character,
    defender: &Character,
    a: Seq<Seq<AttackDraws>>,
    b: Seq<Seq<AttackDraws>>,
    n: int,
)
    requires
        n <= a.len(),
        n <= b.len(),
        forall|i: int| 0 <= i < n ==> a[i] == b[i],
    ensures
        simulation_stats(attacker, defender, a, n) == simulation_stats(attacker, defender, b, n),
    decreases n,
{
    if n > 0 {
        lemma_simulation_prefix(attacker, defender, a, b, n - 1);
    }
}

/// Plays an attacker against defenders for a fixed number of rounds.
#[derive(Clone, Copy, Debug)]
pub struct CombatSimulator {
    pub total_rounds: i32,
}

impl Default for CombatSimulator {
    fn default() -> (simulator: Self)
        ensures
            simulator.total_rounds == 0,
    {
        CombatSimulator { total_rounds: 0 }
    }
}

impl CombatSimulator {
    pub fn new(total_rounds: i32) -> (simulator: Self)
        ensures
            simulator.total_rounds == total_rounds,
    {
        Self { total_rounds }
    }

    /// Finds what keeps the simulation from being played against a defender
    /// with a physical immunity of `immunity`.
    pub fn check(&self, attacker: &Character, immunity: i32) -> (r: Result<(), SimulationError>)
        ensures
            match r {
                Ok(_) => simulation_fault(attacker, immunity as int, self.total_rounds as int)
                    is None,
                Err(e) => simulation_fault(attacker, immunity as int, self.total_rounds as int)
                    == Some(e),
            },
    {
        if self.total_rounds < 1 {
            return Ok(());
        }
        let total: i64 = attacker.total_apr_wide();
        if total < i32::MIN as i64 || total > i32::MAX as i64 {
            return Err(SimulationError::OutOfRange);
        }
        if total < 1 {
            return Ok(());
        }
        if !attacker.weapon.is_usable() {
            return Err(SimulationError::NoDamageType);
        }
        if !Combat::has_rollable_dice(attacker) {
            return Err(SimulationError::DiceWithoutFaces);
        }
        if !Combat::has_fitting_slots(attacker) {
            return Err(SimulationError::OutOfRange);
        }
        let threat: i64 = attacker.threat_range_wide();
        if threat < i32::MIN as i64 || threat > i32::MAX as i64 {
            return Err(SimulationError::OutOfRange);
        }
        let multiplier: i64 = attacker.crit_multiplier_wide();
        if multiplier < i32::MIN as i64 || multiplier > i32::MAX as i64 {
            return Err(SimulationError::OutOfRange);
        }
        proof {
            lemma_swing_limit_parts(attacker);
            lemma_mitigated_within(0, immunity as int, 0, swing_limit(attacker));
        }
        let ghost bound = mitigation_bound(swing_limit(attacker), immunity as int);
        match Combat::swing_bound_of(attacker, immunity) {
            None => {
                proof {
                    lemma_mul_monotone(1, bound, total as int, bound);
                    lemma_mul_monotone(1, total * bound, self.total_rounds as int, total * bound);
                }
                Err(SimulationError::OutOfRange)
            },
            Some(swing) => {
                proof {
                    lemma_mul_monotone(total as int, swing as int, 0x7fff_ffff, 0x7fff_ffff);
                    lemma_mul_monotone(1, total * bound, self.total_rounds as int, total * bound);
                }
                let per_round: i64 = total * swing;
                if per_round > i32::MAX as i64 {
                    return Err(SimulationError::OutOfRange);
                }
                proof {
                    lemma_mul_monotone(
                        self.total_rounds as int,
                        per_round as int,
                        0x7fff_ffff,
                        0x7fff_ffff,
                    );
                }
                if self.total_rounds as i64 * per_round > i32::MAX as i64 {
                    Err(SimulationError::OutOfRange)
                } else {
                    Ok(())
                }
            },
        }
    }

    /// Tells whether the simulation can be played against a defender with
    /// a physical immunity of `immunity`.
    pub fn can_begin(&self, attacker: &Character, immunity: i32) -> (r: bool)
        ensures
            r == can_simulate(attacker, immunity as int, self.total_rounds as int),
    {
        proof {
            lemma_fault_free(attacker, immunity as int, self.total_rounds as int);
        }
        self.check(attacker, immunity).is_ok()
    }

    /// Plays all rounds against one defender and sums their statistics,
    /// unless something keeps the simulation from being played.
    pub fn try_begin(&self, attacker: &Character, defender: &Character) -> (r: Result<
        CombatStatistics,
        SimulationError,
    >)
        ensures
            match r {
                Ok(statistics) => {
                    &&& simulation_fault(
                        attacker,
                        defender.physical_immunity as int,
                        self.total_rounds as int,
                    ) is None
                    &&& is_simulation_of(
                        statistics@,
                        attacker,
                        defender,
                        self.total_rounds as int,
                    )
                },
                Err(e) => simulation_fault(
                    attacker,
                    defender.physical_immunity as int,
                    self.total_rounds as int,
                ) == Some(e),
            },
    {
        proof {
            lemma_fault_free(
                attacker,
                defender.physical_immunity as int,
                self.total_rounds as int,
            );
        }
        match self.check(attacker, defender.physical_immunity) {
            Err(e) => Err(e),
            Ok(_) => Ok(self.begin(attacker, defender)),
        }
    }

    /// Plays all rounds against one defender and sums their statistics.
    pub fn begin(&self, attacker: &Character, defender: &Character) -> (statistics:
        CombatStatistics)
        requires
            can_simulate(attacker, defender.physical_immunity as int, self.total_rounds as int),
        ensures
            is_simulation_of(statistics@, attacker, defender, self.total_rounds as int),
            stats_within(
                statistics@,
                rounds_played(self.total_rounds as int) * round_length(attacker),
                swing_bound(attacker, defender),
            ),
    {
        let mut statistics = CombatStatistics::new();
        let combat = Combat::new(attacker, defender);
        let ghost bound = swing_bound(attacker, defender);
        let ghost length = round_length(attacker);
        let ghost per_round = length * bound;
        let ghost mut rounds: Seq<Seq<AttackDraws>> = Seq::empty();
        proof {
            assert(0 * length == 0) by (nonlinear_arith);
            assert(0 * per_round == 0) by (nonlinear_arith);
            assert(0 * bound == 0) by (nonlinear_arith);
        }
        let mut i: i32 = 0;
        while i < self.total_rounds
            invariant
                0 <= i <= rounds_played(self.total_rounds as int),
                combat.attacker == attacker,
                combat.defender == defender,
                bound == swing_bound(attacker, defender),
                length == round_length(attacker),
                per_round == length * bound,
                can_simulate(attacker, defender.physical_immunity as int, self.total_rounds as int),
                rounds.len() == i,
                forall|k: int|
                    0 <= k < i ==> round_draws_admissible(attacker, defender, #[trigger] rounds[k]),
                statistics@ == simulation_stats(attacker, defender, rounds, i as int),
                0 <= statistics@.critical_hits <= statistics@.total_hits,
                0 <= statistics@.concealed_attacks,
                0 <= statistics@.epic_dodged_attacks,
                statistics@.concealed_attacks + statistics@.epic_dodged_attacks
                    <= statistics@.total_misses,
                statistics@.total_hits + statistics@.total_misses <= i * length,
                map_within(statistics@.dmg_dealt, i * per_round),
            decreases self.total_rounds - i,
        {
            proof {
                lemma_simulation_allows_round(attacker, defender, self.total_rounds as int);
                lemma_mul_step(i as int, length);
                lemma_mul_step(i as int, per_round);
                lemma_mul_monotone(i + 1, length, self.total_rounds as int, length);
                lemma_mul_monotone(i + 1, per_round, self.total_rounds as int, per_round);
                lemma_mul_monotone(
                    self.total_rounds as int,
                    length,
                    0x7fff_ffff,
                    0x7fff_ffff,
                );
            }
            let round_statistics = combat.resolve_round();
            proof {
                let drawn = choose|drawn: Seq<AttackDraws>|
                    round_draws_admissible(attacker, defender, drawn) && round_statistics@
                        == #[trigger] round_stats(attacker, defender, drawn);
                let longer = rounds.push(drawn);
                lemma_simulation_prefix(attacker, defender, rounds, longer, i as int);
                assert(longer[i as int] == drawn);
                lemma_sum_within(
                    statistics@.dmg_dealt,
                    round_statistics@.dmg_dealt,
                    i * per_round,
                    per_round,
                );
                rounds = longer;
            }
            statistics.total_hits = statistics.total_hits + round_statistics.total_hits;
            statistics.total_misses = statistics.total_misses + round_statistics.total_misses;
            statistics.concealed_attacks = statistics.concealed_attacks
                + round_statistics.concealed_attacks;
            statistics.epic_dodged_attacks = statistics.epic_dodged_attacks
                + round_statistics.epic_dodged_attacks;
            statistics.critical_hits = statistics.critical_hits + round_statistics.critical_hits;
            statistics.dmg_dealt.add_from(&round_statistics.dmg_dealt);
            i = i + 1;
        }
        proof {
            assert(simulation_admissible(attacker, defender, rounds, self.total_rounds as int));
            assert((i * length) * bound == i * per_round) by (nonlinear_arith)
                requires
                    per_round == length * bound,
            ;
        }
        statistics
    }

    /// Plays all rounds against a dummy of each armor class in
    /// `target_ac_list`, and files the statistics under the armor class. An
    /// armor class that is listed twice is played twice, and the later
    /// statistics stay.
    pub fn damage_test(
        &self,
        attacker: &Character,
        target_ac_list: Vec<i32>,
        target_concealment: i32,
        target_physical_immunity: i32,
        target_defensive_essence: i32,
        target_has_epic_dodge: bool,
    ) -> (result: DamageTestResult)
        requires
            can_simulate(attacker, target_physical_immunity as int, self.total_rounds as int),
        ensures
            result.total_rounds == self.total_rounds,
            forall|ac: i32|
                result.statistics@.dom().contains(ac) <==> target_ac_list@.contains(ac),
            forall|ac: i32| #[trigger]
                result.statistics@.dom().contains(ac) ==> is_profile_result(
                    result.statistics@[ac]@,
                    attacker,
                    self.total_rounds as int,
                    ac,
                    target_concealment,
                    target_physical_immunity,
                    target_defensive_essence,
                    target_has_epic_dodge,
                ),
    {
        let silent = |_attacker: &Character, _target_ac: &i32, _statistics: &CombatStatistics| {};
        self.damage_test_observed(
            attacker,
            target_ac_list,
            target_concealment,
            target_physical_immunity,
            target_defensive_essence,
            target_has_epic_dodge,
            &silent,
        )
    }

    /// Plays a damage test as [`CombatSimulator::damage_test`] does, and
    /// hands each profile to `notifier` as soon as it is played: the
    /// attacker, the armor class, and the statistics of that profile. For
    /// every armor class listed `notifier` has been called with the
    /// statistics that are filed under it.
    pub fn damage_test_observed<F: Fn(&Character, &i32, &CombatStatistics)>(
        &self,
        attacker: &Character,
        target_ac_list: Vec<i32>,
        target_concealment: i32,
        target_physical_immunity: i32,
        target_defensive_essence: i32,
        target_has_epic_dodge: bool,
        notifier: &F,
    ) -> (result: DamageTestResult)
        requires
            can_simulate(attacker, target_physical_immunity as int, self.total_rounds as int),
            forall|ac: &i32, statistics: &CombatStatistics|
                target_ac_list@.contains(*ac) && is_profile_result(
                    statistics@,
                    attacker,
                    self.total_rounds as int,
                    *ac,
                    target_concealment,
                    target_physical_immunity,
                    target_defensive_essence,
                    target_has_epic_dodge,
                ) ==> #[trigger] call_requires(notifier, (attacker, ac, statistics)),
        ensures
            result.total_rounds == self.total_rounds,
            forall|ac: i32|
                result.statistics@.dom().contains(ac) <==> target_ac_list@.contains(ac),
            forall|ac: i32| #[trigger]
                result.statistics@.dom().contains(ac) ==> is_profile_result(
                    result.statistics@[ac]@,
                    attacker,
                    self.total_rounds as int,
                    ac,
                    target_concealment,
                    target_physical_immunity,
                    target_defensive_essence,
                    target_has_epic_dodge,
                ),
            forall|ac: i32|
                target_ac_list@.contains(ac) ==> #[trigger] call_ensures(
                    notifier,
                    (attacker, &ac, &result.statistics@[ac]),
                    (),
                ),
    {
        broadcast use vstd::std_specs::hash::group_hash_axioms;

        let mut result = DamageTestResult::new();
        let mut i: usize = 0;
        while i < target_ac_list.len()
            invariant
                0 <= i <= target_ac_list.len(),
                can_simulate(attacker, target_physical_immunity as int, self.total_rounds as int),
                forall|ac: &i32, statistics: &CombatStatistics|
                    target_ac_list@.contains(*ac) && is_profile_result(
                        statistics@,
                        attacker,
                        self.total_rounds as int,
                        *ac,
                        target_concealment,
                        target_physical_immunity,
                        target_defensive_essence,
                        target_has_epic_dodge,
                    ) ==> #[trigger] call_requires(notifier, (attacker, ac, statistics)),
                forall|ac: i32|
                    result.statistics@.dom().contains(ac) <==> target_ac_list@.take(
                        i as int,
                    ).contains(ac),
                forall|ac: i32| #[trigger]
                    result.statistics@.dom().contains(ac) ==> is_profile_result(
                        result.statistics@[ac]@,
                        attacker,
                        self.total_rounds as int,
                        ac,
                        target_concealment,
                        target_physical_immunity,
                        target_defensive_essence,
                        target_has_epic_dodge,
                    ),
                forall|ac: i32|
                    target_ac_list@.take(i as int).contains(ac) ==> #[trigger] call_ensures(
                        notifier,
                        (attacker, &ac, &result.statistics@[ac]),
                        (),
                    ),
            decreases target_ac_list.len() - i,
        {
            let target_ac: i32 = target_ac_list[i];
            let dummy = combat_dummy(
                target_ac,
                target_concealment,
                target_physical_immunity,
                target_defensive_essence,
                target_has_epic_dodge,
            );
            let combat_statistics = self.begin(attacker, &dummy);
            proof {
                assert(is_simulation_of(
                    combat_statistics@,
                    attacker,
                    &dummy,
                    self.total_rounds as int,
                ));
                assert(target_ac_list@[i as int] == target_ac);
            }
            let ghost before = result.statistics@;
            notifier(attacker, &target_ac, &combat_statistics);
            let _ = result.statistics.insert(target_ac, combat_statistics);
            proof {
                let shorter = target_ac_list@.take(i as int);
                let longer = target_ac_list@.take(i + 1);
                assert(longer =~= shorter.push(target_ac));
                assert forall|ac: i32| longer.contains(ac) implies #[trigger] call_ensures(
                    notifier,
                    (attacker, &ac, &result.statistics@[ac]),
                    (),
                ) by {
                    if ac != target_ac {
                        let k = choose|k: int| 0 <= k < longer.len() && longer[k] == ac;
                        assert(shorter[k] == ac);
                        assert(shorter.contains(ac));
                        assert(result.statistics@[ac] == before[ac]);
                    }
                }
                assert forall|ac: i32|
                    result.statistics@.dom().contains(ac) <==> longer.contains(ac) by {
                    if ac == target_ac {
                        assert(longer[i as int] == ac);
                    } else if shorter.contains(ac) {
                        let k = choose|k: int| 0 <= k < shorter.len() && shorter[k] == ac;
                        assert(longer[k] == ac);
                    } else if longer.contains(ac) {
                        let k = choose|k: int| 0 <= k < longer.len() && longer[k] == ac;
                        assert(shorter[k] == ac);
                    }
                }
            }
            i = i + 1;
        }
        assert(target_ac_list@.take(i as int) =~= target_ac_list@);
        result.total_rounds = self.total_rounds;
        result
    }

    /// Plays all rounds against each of `defenders` in turn; the statistics
    /// come in the order of the defenders.
    pub fn simulate(&self, attacker: &Character, defenders: &Vec<Character>) -> (results: Vec<
        CombatStatistics,
    >)
        requires
            forall|i: int|
                0 <= i < defenders@.len() ==> can_simulate(
                    attacker,
                    (#[trigger] defenders@[i]).physical_immunity as int,
                    self.total_rounds as int,
                ),
        ensures
            results@.len() == defenders@.len(),
            forall|i: int|
                0 <= i < defenders@.len() ==> is_simulation_of(
                    (#[trigger] results@[i])@,
                    attacker,
                    &defenders@[i],
                    self.total_rounds as int,
                ),
    {
        let mut results: Vec<CombatStatistics> = Vec::new();
        let mut i: usize = 0;
        while i < defenders.len()
            invariant
                0 <= i <= defenders@.len(),
                results@.len() == i,
                forall|k: int|
                    0 <= k < defenders@.len() ==> can_simulate(
                        attacker,
                        (#[trigger] defenders@[k]).physical_immunity as int,
                        self.total_rounds as int,
                    ),
                forall|k: int|
                    0 <= k < i ==> is_simulation_of(
                        (#[trigger] results@[k])@,
                        attacker,
                        &defenders@[k],
                        self.total_rounds as int,
                    ),
            decreases defenders@.len() - i,
        {
            let statistics = self.begin(attacker, &defenders[i]);
            results.push(statistics);
            i = i + 1;
        }
        results
    }

    /// Plays a damage test, unless something keeps the simulation from
    /// being played; nothing is played then.
    pub fn try_damage_test(
        &self,
        attacker: &Character,
        target_ac_list: Vec<i32>,
        target_concealment: i32,
        target_physical_immunity: i32,
        target_defensive_essence: i32,
        target_has_epic_dodge: bool,
    ) -> (r: Result<DamageTestResult, SimulationError>)
        ensures
            match r {
                Ok(result) => {
                    &&& simulation_fault(
                        attacker,
                        target_physical_immunity as int,
                        self.total_rounds as int,
                    ) is None
                    &&& result.total_rounds == self.total_rounds
                    &&& forall|ac: i32|
                        result.statistics@.dom().contains(ac) <==> target_ac_list@.contains(ac)
                    &&& forall|ac: i32| #[trigger]
                        result.statistics@.dom().contains(ac) ==> is_profile_result(
                            result.statistics@[ac]@,
                            attacker,
                            self.total_rounds as int,
                            ac,
                            target_concealment,
                            target_physical_immunity,
                            target_defensive_essence,
                            target_has_epic_dodge,
                        )
                },
                Err(e) => simulation_fault(
                    attacker,
                    target_physical_immunity as int,
                    self.total_rounds as int,
                ) == Some(e),
            },
    {
        proof {
            lemma_fault_free(attacker, target_physical_immunity as int, self.total_rounds as int);
        }
        match self.check(attacker, target_physical_immunity) {
            Err(e) => Err(e),
            Ok(_) => Ok(
                self.damage_test(
                    attacker,
                    target_ac_list,
                    target_concealment,
                    target_physical_immunity,
                    target_defensive_essence,
                    target_has_epic_dodge,
                ),
            ),
        }
    }
}

/// Whether `dummy` is the defender that a damage test swings at: a blank
/// character but for its name, the numbers given, and Epic Dodge as its
/// one feat where `epic_dodge` says so.
pub open spec fn is_combat_dummy(
    dummy: &Character,
    ac: i32,
    concealment: i32,
    physical_immunity: i32,
    defensive_essence: i32,
    epic_dodge: bool,
) -> bool {
    &&& dummy.name@ == "Combat Dummy"@
    &&& dummy.ac == ac
    &&& dummy.concealment == concealment
    &&& dummy.physical_immunity == physical_immunity
    &&& dummy.defensive_essence == defensive_essence
    &&& dummy.has_blank_build()
    &&& if epic_dodge {
        dummy.feats@.len() == 1 && dummy.feats@[0].0@ == "Epic Dodge"@
    } else {
        dummy.feats@.len() == 0
    }
}

/// Whether `stats` can come out of a simulation of `attacker` against the
/// dummy of a damage test.
pub open spec fn is_profile_result(
    stats: StatsView,
    attacker: &Character,
    total_rounds: int,
    ac: i32,
    concealment: i32,
    physical_immunity: i32,
    defensive_essence: i32,
    epic_dodge: bool,
) -> bool {
    exists|dummy: Character|
        is_combat_dummy(
            &dummy,
            ac,
            concealment,
            physical_immunity,
            defensive_essence,
            epic_dodge,
        ) && #[trigger] is_simulation_of(stats, attacker, &dummy, total_rounds)
}

/// The defender that a damage test swings at.
pub fn combat_dummy(
    ac: i32,
    concealment: i32,
    physical_immunity: i32,
    defensive_essence: i32,
    epic_dodge: bool,
) -> (dummy: Character)
    ensures
        is_combat_dummy(
            &dummy,
            ac,
            concealment,
            physical_immunity,
            defensive_essence,
            epic_dodge,
        ),
{
    let mut dummy = Character::builder().name(String::from_str("Combat Dummy")).ac(
        ac,
    ).concealment(concealment).physical_immunity(physical_immunity).defensive_essence(
        defensive_essence,
    );
    if epic_dodge {
        assert(feat_name(5) == "Epic Dodge"@);
        dummy = dummy.add_feat(get_feat("Epic Dodge"));
    }
    dummy.build()
}

/// What a damage test found: the rounds played against each profile, and
/// the statistics of each, filed under the armor class of the profile.
#[derive(Debug)]
pub struct DamageTestResult {
    pub total_rounds: i32,
    pub statistics: HashMap<i32, CombatStatistics>,
}

impl DamageTestResult {
    pub fn new() -> (result: Self)
        ensures
            result.total_rounds == 0,
            result.statistics@ == Map::<i32, CombatStatistics>::empty(),
    {
        DamageTestResult { total_rounds: 0, statistics: HashMap::new() }
    }
}

impl Default for DamageTestResult {
    fn default() -> (result: Self)
        ensures
            result.total_rounds == 0,
            result.statistics@ == Map::<i32, CombatStatistics>::empty(),
    {
        DamageTestResult::new()
    }
}

} // verus!
