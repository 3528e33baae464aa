//! One round: every swing that the attacker gets, in order.

use crate::arith::{lemma_mul_monotone, lemma_mul_step};
use crate::character::Character;
use crate::combat::attack::{attack_draws_admissible, hit_result, AttackDraws, AttackRolls};
use crate::combat::swing::{
    can_swing, dice_rollable, lemma_mitigated_within, lemma_swing_limit_parts, swing_bound,
    swing_damage, swing_limit, DamageDraws,
};
use crate::combat::{blank_stats, AttackType, Combat, CombatStatistics, HitResult, StatsView};
use crate::dice::Dice;
use crate::item::damage::{amount_in, map_within, merged, DamageResult, DamageType};
use crate::rules::{CONCEALMENT_DIE_FACES, HIT_DIE_FACES};
use vstd::prelude::*;

verus! {

/// Where a round stands between two swings: the statistics so far, and
/// whether the defender can still dodge.
pub struct RoundState {
    pub stats: StatsView,
    pub can_dodge: bool,
}

/// A round before its first swing: nothing counted, and the dodge unused.
pub open spec fn round_start() -> RoundState {
    RoundState { stats: blank_stats(), can_dodge: true }
}

/// `stats` with the damage of one swing merged in.
pub open spec fn with_damage(stats: StatsView, damage: Map<DamageType, int>) -> StatsView {
    StatsView { dmg_dealt: merged(stats.dmg_dealt, damage), ..stats }
}

/// The round after a swing that ended as `result` and, where it hit, dealt
/// `damage`.
pub open spec fn after_result(
    state: RoundState,
    result: HitResult,
    damage: Map<DamageType, int>,
) -> RoundState {
    let stats = state.stats;
    match result {
        HitResult::TargetConcealed => RoundState {
            stats: StatsView {
                concealed_attacks: stats.concealed_attacks + 1,
                total_misses: stats.total_misses + 1,
                ..stats
            },
            ..state
        },
        HitResult::Miss => RoundState {
            stats: StatsView { total_misses: stats.total_misses + 1, ..stats },
            ..state
        },
        HitResult::EpicDodged => RoundState {
            stats: StatsView {
                epic_dodged_attacks: stats.epic_dodged_attacks + 1,
                total_misses: stats.total_misses + 1,
                ..stats
            },
            can_dodge: false,
        },
        HitResult::Hit => RoundState {
            stats: with_damage(StatsView { total_hits: stats.total_hits + 1, ..stats }, damage),
            ..state
        },
        HitResult::CriticalHit => RoundState {
            stats: with_damage(
                StatsView {
                    total_hits: stats.total_hits + 1,
                    critical_hits: stats.critical_hits + 1,
                    ..stats
                },
                damage,
            ),
            ..state
        },
    }
}

/// The round after swing number `slot`, whose dice showed `draws`. A slot
/// without an attack changes nothing.
pub open spec fn after_swing(
    attacker: &Character,
    defender: &Character,
    state: RoundState,
    slot: int,
    draws: AttackDraws,
) -> RoundState {
    match attacker.attack_slot(slot) {
        None => state,
        Some((ab, type_)) => {
            let result = hit_result(
                attacker,
                defender,
                ab,
                state.can_dodge,
                draws.conceal as int,
                draws.hit as int,
                draws.confirm as int,
            );
            after_result(
                state,
                result,
                swing_damage(
                    attacker,
                    defender,
                    type_,
                    result == HitResult::CriticalHit,
                    draws.damage,
                ),
            )
        },
    }
}

/// The round after its first `n` swings, where swing `i` rolled
/// `draws[i - 1]`.
pub open spec fn round_state(
    attacker: &Character,
    defender: &Character,
    draws: Seq<AttackDraws>,
    n: int,
) -> RoundState
    decreases n,
{
    if n <= 0 {
        round_start()
    } else {
        after_swing(
            attacker,
            defender,
            round_state(attacker, defender, draws, n - 1),
            n,
            draws[n - 1],
        )
    }
}

/// Whether the dice of the first `n` swings can have shown `draws`.
pub open spec fn round_admissible_upto(
    attacker: &Character,
    defender: &Character,
    draws: Seq<AttackDraws>,
    n: int,
) -> bool
    decreases n,
{
    if n <= 0 {
        true
    } else {
        &&& round_admissible_upto(attacker, defender, draws, n - 1)
        &&& match attacker.attack_slot(n) {
            None => true,
            Some((ab, _)) => attack_draws_admissible(
                attacker,
                defender,
                ab,
                round_state(attacker, defender, draws, n - 1).can_dodge,
                draws[n - 1],
            ),
        }
    }
}

/// How many swings a round of `attacker` has.
pub open spec fn round_length(attacker: &Character) -> int {
    if attacker.attacks_per_round() > 0 {
        attacker.attacks_per_round()
    } else {
        0
    }
}

/// Whether `draws` holds what the dice of one whole round can have shown.
pub open spec fn round_draws_admissible(
    attacker: &Character,
    defender: &Character,
    draws: Seq<AttackDraws>,
) -> bool {
    &&& draws.len() == round_length(attacker)
    &&& round_admissible_upto(attacker, defender, draws, round_length(attacker))
}

/// The statistics of one whole round whose dice showed `draws`.
pub open spec fn round_stats(
    attacker: &Character,
    defender: &Character,
    draws: Seq<AttackDraws>,
) -> StatsView {
    round_state(attacker, defender, draws, round_length(attacker)).stats
}

/// Whether a round can be summed up: the machine integer holds the number
/// of swings and, where there is a swing, each attack bonus, the threat
/// range, and every damage total of the round whatever the dice show.
pub open spec fn round_fits(attacker: &Character, defender: &Character) -> bool {
    &&& i32::MIN <= attacker.attacks_per_round() <= i32::MAX
    &&& round_length(attacker) >= 1 ==> {
        &&& forall|n: int| #[trigger] attacker.attack_slot_fits(n)
        &&& i32::MIN <= attacker.threat_range() <= i32::MAX
        &&& can_swing(attacker, defender)
        &&& round_length(attacker) * swing_bound(attacker, defender) <= i32::MAX
    }
}

/// Whether a round can be played: it can be summed up, and where there is
/// a swing the dice can be rolled.
pub open spec fn can_run_round(attacker: &Character, defender: &Character) -> bool {
    &&& round_fits(attacker, defender)
    &&& round_length(attacker) >= 1 ==> dice_rollable(attacker)
}

/// What the rolls of a round stand for, swing by swing.
pub open spec fn draws_of(rolls: Seq<AttackRolls>) -> Seq<AttackDraws> {
    Seq::new(rolls.len(), |i: int| rolls[i]@)
}

/// Whether statistics can be those of `swings` swings at most: no counter
/// is negative, hits and misses together do not exceed the swings, critical
/// hits are hits, concealed and dodged swings are misses, and no damage
/// total is further from zero than `swings` times `bound`.
pub open spec fn stats_within(stats: StatsView, swings: int, bound: int) -> bool {
    &&& 0 <= stats.critical_hits <= stats.total_hits
    &&& 0 <= stats.concealed_attacks
    &&& 0 <= stats.epic_dodged_attacks
    &&& stats.concealed_attacks + stats.epic_dodged_attacks <= stats.total_misses
    &&& stats.total_hits + stats.total_misses <= swings
    &&& map_within(stats.dmg_dealt, swings * bound)
}

/// Every swing of a round has an attack: no slot from the first to the last
/// is without one.
pub proof fn lemma_every_slot_attacks(attacker: &Character, n: int)
    requires
        1 <= n <= attacker.attacks_per_round(),
    ensures
        attacker.attack_slot(n) is Some,
{
}

/// In a round each swing is counted once, as a hit or as a miss, and the
/// defender dodges once at most: after the dodge none is left.
pub proof fn lemma_round_counts(
    attacker: &Character,
    defender: &Character,
    draws: Seq<AttackDraws>,
    n: int,
)
    requires
        0 <= n <= round_length(attacker),
    ensures
        ({
            let state = round_state(attacker, defender, draws, n);
            &&& state.stats.total_hits + state.stats.total_misses == n
            &&& 0 <= state.stats.critical_hits <= state.stats.total_hits
            &&& 0 <= state.stats.concealed_attacks
            &&& state.stats.concealed_attacks + state.stats.epic_dodged_attacks
                <= state.stats.total_misses
            &&& state.stats.epic_dodged_attacks == if state.can_dodge {
                0int
            } else {
                1int
            }
        }),
    decreases n,
{
    if n > 0 {
        lemma_round_counts(attacker, defender, draws, n - 1);
        lemma_every_slot_attacks(attacker, n);
    }
}

/// The first `n` swings of a round depend on the first `n` draws only.
pub proof fn lemma_round_prefix(
    attacker: &Character,
    defender: &Character,
    a: Seq<AttackDraws>,
    b: Seq<AttackDraws>,
    n: int,
)
    requires
        n <= a.len(),
        n <= b.len(),
        forall|i: int| 0 <= i < n ==> a[i] == b[i],
    ensures
        round_state(attacker, defender, a, n) == round_state(attacker, defender, b, n),
        round_admissible_upto(attacker, defender, a, n) == round_admissible_upto(
            attacker,
            defender,
            b,
            n,
        ),
    decreases n,
{
    if n > 0 {
        lemma_round_prefix(attacker, defender, a, b, n - 1);
    }
}

/// Rolls the percentile die.
fn roll_percentile() -> (roll: i32)
    ensures
        1 <= roll <= CONCEALMENT_DIE_FACES,
{
    let die = Dice::new(1, CONCEALMENT_DIE_FACES);
    proof {
        die.lemma_totals();
    }
    die.roll()
}

/// Rolls the die that decides hits.
fn roll_to_hit() -> (roll: i32)
    ensures
        1 <= roll <= HIT_DIE_FACES,
{
    let die = Dice::new(1, HIT_DIE_FACES);
    proof {
        die.lemma_totals();
    }
    die.roll()
}

/// The draws of a swing that needed no damage dice.
pub open spec fn draws_without_damage(conceal: i32, hit: i32, confirm: i32) -> AttackDraws {
    AttackDraws {
        conceal,
        hit,
        confirm,
        damage: DamageDraws { weapon: 0, properties: Seq::empty(), bane: 0 },
    }
}

impl<'a> Combat<'a> {
    /// Plays one round: resolves every swing that the attacker gets, in
    /// order, and counts the outcomes. The defender's Epic Dodge turns the
    /// first hit of the round into a miss.
    ///
    /// Dice are rolled as the swings need them: the percentile die where
    /// the defender has concealment, the confirmation where the hit
    /// threatens, the damage dice where the swing hits.
    pub fn resolve_round(&self) -> (stats: CombatStatistics)
        requires
            can_run_round(self.attacker, self.defender),
        ensures
            exists|draws: Seq<AttackDraws>|
                round_draws_admissible(self.attacker, self.defender, draws) && stats@
                    == #[trigger] round_stats(self.attacker, self.defender, draws),
            stats_within(
                stats@,
                round_length(self.attacker),
                swing_bound(self.attacker, self.defender),
            ),
    {
        let attacker = self.attacker;
        let defender = self.defender;
        let ghost bound = swing_bound(attacker, defender);
        let ghost length = round_length(attacker);
        let total: i32 = attacker.total_apr();
        if total < 1 {
            let round_statistics = CombatStatistics::new();
            proof {
                let none: Seq<AttackDraws> = Seq::empty();
                assert(round_draws_admissible(attacker, defender, none));
                assert(round_statistics@ == round_stats(attacker, defender, none));
                assert(0 * bound == 0) by (nonlinear_arith);
            }
            return round_statistics;
        }
        let effective: i64 = Self::resolve_concealment(attacker, defender);
        let dodges: bool = defender.has_epic_dodge();
        let immune: bool = defender.is_crit_immune();
        let threat: i32 = attacker.weapon_threat_range();
        let mut round_statistics = CombatStatistics::new();
        let mut defender_can_epic_dodge: bool = true;
        let ghost mut draws: Seq<AttackDraws> = Seq::empty();
        proof {
            lemma_swing_limit_parts(attacker);
            lemma_mitigated_within(0, defender.physical_immunity as int, 0, swing_limit(attacker));
            assert(0 * bound == 0) by (nonlinear_arith);
        }
        let mut i: i32 = 0;
        while i < total
            invariant
                0 <= i <= length,
                length == round_length(attacker),
                total == attacker.attacks_per_round(),
                bound == swing_bound(attacker, defender),
                0 <= bound,
                swing_limit(attacker) <= bound,
                can_run_round(attacker, defender),
                effective == crate::combat::attack::effective_concealment(attacker, defender),
                dodges == defender.epic_dodge(),
                immune == defender.crit_immune(),
                threat == attacker.threat_range(),
                draws.len() == i,
                round_admissible_upto(attacker, defender, draws, i as int),
                round_state(attacker, defender, draws, i as int) == (RoundState {
                    stats: round_statistics@,
                    can_dodge: defender_can_epic_dodge,
                }),
                stats_within(round_statistics@, i as int, bound),
            decreases total - i,
        {
            let atk_no: i32 = i + 1;
            let ghost before = round_state(attacker, defender, draws, i as int);
            let ghost drawn: AttackDraws;
            proof {
                assert(attacker.attack_slot_fits(atk_no as int));
                lemma_mul_step(i as int, bound);
                lemma_mul_monotone(i + 1, bound, length, bound);
                lemma_widen(round_statistics.dmg_dealt@, i * bound, (i + 1) * bound);
            }
            match attacker.atk_ab(atk_no) {
                None => {
                    proof {
                        drawn = draws_without_damage(1, 1, 1);
                    }
                },
                Some(atk_info) => {
                    let conceal: i32 = if effective > 0 {
                        roll_percentile()
                    } else {
                        1
                    };
                    if Self::is_concealed(effective, conceal) {
                        round_statistics.concealed_attacks = round_statistics.concealed_attacks + 1;
                        round_statistics.total_misses = round_statistics.total_misses + 1;
                        proof {
                            drawn = draws_without_damage(conceal, 1, 1);
                        }
                    } else {
                        let hit_roll: i32 = roll_to_hit();
                        if Self::is_landing(atk_info.ab, hit_roll, defender.ac) {
                            if dodges && defender_can_epic_dodge {
                                defender_can_epic_dodge = false;
                                round_statistics.epic_dodged_attacks =
                                    round_statistics.epic_dodged_attacks + 1;
                                round_statistics.total_misses = round_statistics.total_misses + 1;
                                proof {
                                    drawn = draws_without_damage(conceal, hit_roll, 1);
                                }
                            } else {
                                let mut confirm: i32 = 1;
                                let mut is_crit: bool = false;
                                if !immune && hit_roll >= threat {
                                    confirm = roll_to_hit();
                                    is_crit = Self::is_confirmed(atk_info.ab, confirm, defender.ac);
                                }
                                if is_crit {
                                    round_statistics.critical_hits = round_statistics.critical_hits
                                        + 1;
                                }
                                round_statistics.total_hits = round_statistics.total_hits + 1;
                                let rolls = Self::roll_damage(attacker, is_crit);
                                let dmg_result = Self::damage_from_rolls(
                                    attacker,
                                    defender,
                                    atk_info,
                                    is_crit,
                                    &rolls,
                                );
                                proof {
                                    lemma_sum_within(
                                        round_statistics.dmg_dealt@,
                                        dmg_result@,
                                        i * bound,
                                        bound,
                                    );
                                }
                                round_statistics.dmg_dealt.add_from(&dmg_result);
                                proof {
                                    drawn = AttackDraws {
                                        conceal,
                                        hit: hit_roll,
                                        confirm,
                                        damage: rolls@,
                                    };
                                }
                            }
                        } else {
                            round_statistics.total_misses = round_statistics.total_misses + 1;
                            proof {
                                drawn = draws_without_damage(conceal, hit_roll, 1);
                            }
                        }
                    }
                },
            }
            proof {
                let longer = draws.push(drawn);
                lemma_round_prefix(attacker, defender, draws, longer, i as int);
                assert(longer[i as int] == drawn);
                assert(round_state(attacker, defender, longer, i + 1) == after_swing(
                    attacker,
                    defender,
                    before,
                    i + 1,
                    drawn,
                ));
                draws = longer;
            }
            i = i + 1;
        }
        assert(round_draws_admissible(attacker, defender, draws));
        assert(round_statistics@ == round_stats(attacker, defender, draws));
        round_statistics
    }
}

impl CombatStatistics {
    /// Counts one swing that ended as `result` and, where it hit, dealt
    /// `damage`.
    pub fn record(&mut self, result: HitResult, damage: &DamageResult)
        requires
            old(self).total_hits < i64::MAX,
            old(self).critical_hits < i64::MAX,
            old(self).total_misses < i64::MAX,
            old(self).concealed_attacks < i64::MAX,
            old(self).epic_dodged_attacks < i64::MAX,
            !result.missed() ==> old(self).dmg_dealt.can_add_from(damage),
        ensures
            final(self)@ == after_result(
                RoundState { stats: old(self)@, can_dodge: true },
                result,
                damage@,
            ).stats,
    {
        match result {
            HitResult::TargetConcealed => {
                self.concealed_attacks = self.concealed_attacks + 1;
                self.total_misses = self.total_misses + 1;
            },
            HitResult::Miss => {
                self.total_misses = self.total_misses + 1;
            },
            HitResult::EpicDodged => {
                self.epic_dodged_attacks = self.epic_dodged_attacks + 1;
                self.total_misses = self.total_misses + 1;
            },
            HitResult::Hit => {
                self.total_hits = self.total_hits + 1;
                self.dmg_dealt.add_from(damage);
            },
            HitResult::CriticalHit => {
                self.total_hits = self.total_hits + 1;
                self.critical_hits = self.critical_hits + 1;
                self.dmg_dealt.add_from(damage);
            },
        }
    }
}

impl<'a> Combat<'a> {
    /// Sums up one round from the rolls of its swings, one entry of `rolls`
    /// for each swing in order.
    pub fn resolve_round_with(&self, rolls: &Vec<AttackRolls>) -> (stats: CombatStatistics)
        requires
            round_fits(self.attacker, self.defender),
            round_draws_admissible(self.attacker, self.defender, draws_of(rolls@)),
        ensures
            stats@ == round_stats(self.attacker, self.defender, draws_of(rolls@)),
            stats_within(
                stats@,
                round_length(self.attacker),
                swing_bound(self.attacker, self.defender),
            ),
    {
        let attacker = self.attacker;
        let defender = self.defender;
        let ghost bound = swing_bound(attacker, defender);
        let ghost length = round_length(attacker);
        let ghost draws = draws_of(rolls@);
        let total: i32 = attacker.total_apr();
        let mut round_statistics = CombatStatistics::new();
        let mut defender_can_epic_dodge: bool = true;
        proof {
            lemma_swing_limit_parts(attacker);
            lemma_mitigated_within(0, defender.physical_immunity as int, 0, swing_limit(attacker));
            assert(0 * bound == 0) by (nonlinear_arith);
        }
        let mut i: i32 = 0;
        while i < total
            invariant
                0 <= i <= length,
                length == round_length(attacker),
                total == attacker.attacks_per_round(),
                bound == swing_bound(attacker, defender),
                0 <= bound,
                round_fits(attacker, defender),
                draws == draws_of(rolls@),
                rolls@.len() == length,
                round_admissible_upto(attacker, defender, draws, length),
                round_state(attacker, defender, draws, i as int) == (RoundState {
                    stats: round_statistics@,
                    can_dodge: defender_can_epic_dodge,
                }),
                stats_within(round_statistics@, i as int, bound),
            decreases total - i,
        {
            let atk_no: i32 = i + 1;
            let ghost before = round_state(attacker, defender, draws, i as int);
            proof {
                assert(attacker.attack_slot_fits(atk_no as int));
                lemma_mul_step(i as int, bound);
                lemma_mul_monotone(i + 1, bound, length, bound);
                lemma_widen(round_statistics.dmg_dealt@, i * bound, (i + 1) * bound);
                lemma_admissible_prefix(attacker, defender, draws, i + 1, length);
                assert(draws[i as int] == rolls@[i as int]@);
            }
            match attacker.atk_ab(atk_no) {
                None => {},
                Some(atk_info) => {
                    let swing = &rolls[i as usize];
                    let result = Self::resolve_hit(
                        attacker,
                        defender,
                        atk_info,
                        defender_can_epic_dodge,
                        swing.conceal,
                        swing.hit,
                        swing.confirm,
                    );
                    if result.is_missed() {
                        let nothing = DamageResult::new();
                        round_statistics.record(result, &nothing);
                        match result {
                            HitResult::EpicDodged => {
                                defender_can_epic_dodge = false;
                            },
                            _ => {},
                        }
                    } else {
                        let dmg_result = Self::damage_from_rolls(
                            attacker,
                            defender,
                            atk_info,
                            result.is_crit(),
                            &swing.damage,
                        );
                        proof {
                            lemma_sum_within(
                                round_statistics.dmg_dealt@,
                                dmg_result@,
                                i * bound,
                                bound,
                            );
                        }
                        round_statistics.record(result, &dmg_result);
                    }
                },
            }
            assert(round_state(attacker, defender, draws, i + 1) == after_swing(
                attacker,
                defender,
                before,
                i + 1,
                draws[i as int],
            ));
            i = i + 1;
        }
        round_statistics
    }
}

/// Draws that the dice of the first `n` swings can have shown are draws
/// that the dice of fewer swings can have shown.
pub proof fn lemma_admissible_prefix(
    attacker: &Character,
    defender: &Character,
    draws: Seq<AttackDraws>,
    i: int,
    n: int,
)
    requires
        0 <= i <= n,
        round_admissible_upto(attacker, defender, draws, n),
    ensures
        round_admissible_upto(attacker, defender, draws, i),
    decreases n - i,
{
    if i < n {
        lemma_admissible_prefix(attacker, defender, draws, i + 1, n);
    }
}

/// Two totals within their bounds merge to a total within the sum of the
/// bounds, and every per-type sum stays within it.
pub proof fn lemma_sum_within(
    a: Map<DamageType, int>,
    b: Map<DamageType, int>,
    limit_a: int,
    limit_b: int,
)
    requires
        map_within(a, limit_a),
        map_within(b, limit_b),
    ensures
        map_within(merged(a, b), limit_a + limit_b),
        forall|t: DamageType|
            -(limit_a + limit_b) <= #[trigger] amount_in(a, t) + amount_in(b, t) <= limit_a
                + limit_b,
{
    assert forall|t: DamageType|
        -(limit_a + limit_b) <= #[trigger] amount_in(a, t) + amount_in(b, t) <= limit_a
            + limit_b by {
        assert(-limit_a <= amount_in(a, t) <= limit_a);
        assert(-limit_b <= amount_in(b, t) <= limit_b);
    }
    assert forall|t: DamageType|
        -(limit_a + limit_b) <= #[trigger] amount_in(merged(a, b), t) <= limit_a + limit_b by {
        assert(-limit_a <= amount_in(a, t) <= limit_a);
        assert(-limit_b <= amount_in(b, t) <= limit_b);
    }
}

/// A total within a bound is within every wider bound.
pub proof fn lemma_widen(m: Map<DamageType, int>, limit: int, wider: int)
    requires
        map_within(m, limit),
        limit <= wider,
    ensures
        map_within(m, wider),
{
    assert forall|t: DamageType| -wider <= #[trigger] amount_in(m, t) <= wider by {
        assert(-limit <= amount_in(m, t) <= limit);
    }
}

} // verus!
