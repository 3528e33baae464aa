//! Plain-text reports of statistics.

use crate::arith::{div_wide, lemma_trunc_div_bounds, trunc_div};
use crate::combat::{CombatStatistics, StatsView};
use crate::simulator::DamageTestResult;
use std::collections::HashMap;
use crate::item::damage::{total_of, DamageType};
use crate::string::{align_string, blanks, decimal, decimal_text, decimal_wide, LABEL_WIDTH};
use vstd::prelude::*;
use vstd::std_specs::iter::IteratorSpec;
use vstd::utf8::{is_ascii_chars, is_ascii_chars_encode_utf8};

verus! {

/// A report line: the label, blanks up to the width of the label column,
/// then the value.
pub open spec fn aligned(label: Seq<char>, value: Seq<char>) -> Seq<char> {
    label + blanks((LABEL_WIDTH - label.len()) as nat) + value
}

/// Lines put together, with a line break between each two.
pub open spec fn join_lines(lines: Seq<Seq<char>>) -> Seq<char>
    decreases lines.len(),
{
    if lines.len() == 0 {
        Seq::empty()
    } else if lines.len() == 1 {
        lines[0]
    } else {
        join_lines(lines.drop_last()) + seq!['\n'] + lines.last()
    }
}

/// The label of the line that reports damage of type `t`.
pub open spec fn damage_label(t: DamageType) -> Seq<char> {
    match t {
        DamageType::Slashing => "    * SLASHING"@,
        DamageType::Piercing => "    * PIERCING"@,
        DamageType::Bludgeoning => "    * BLUDGEONING"@,
        DamageType::Magical => "    * MAGICAL"@,
        DamageType::Acid => "    * ACID"@,
        DamageType::Cold => "    * COLD"@,
        DamageType::Divine => "    * DIVINE"@,
        DamageType::Electrical => "    * ELECTRICAL"@,
        DamageType::Fire => "    * FIRE"@,
        DamageType::Negative => "    * NEGATIVE"@,
        DamageType::Positive => "    * POSITIVE"@,
        DamageType::Sonic => "    * SONIC"@,
        DamageType::Entropy => "    * ENTROPY"@,
        DamageType::Force => "    * FORCE"@,
        DamageType::Psychic => "    * PSYCHIC"@,
        DamageType::Poison => "    * POISON"@,
        DamageType::Unknown => "    * UNKNOWN"@,
    }
}

/// The lines that report the damage of the first `n` types in the order
/// of declaration: one for each type that has an entry.
pub open spec fn damage_lines(dmg: Map<DamageType, int>, n: int) -> Seq<Seq<char>>
    decreases n,
{
    if n <= 0 {
        Seq::empty()
    } else {
        let before = damage_lines(dmg, n - 1);
        let t = DamageType::at(n - 1);
        if dmg.dom().contains(t) {
            before.push(aligned(damage_label(t), decimal_text(dmg[t])))
        } else {
            before
        }
    }
}

/// The lines that report `stats`: attacks, hits, misses and damage, each
/// with its parts indented below it.
pub open spec fn stats_lines(stats: StatsView) -> Seq<Seq<char>> {
    seq![
        aligned("TOTAL ATTACK"@, decimal_text(stats.total_hits + stats.total_misses)),
        aligned("TOTAL HIT"@, decimal_text(stats.total_hits)),
        aligned("    * CRITICAL HIT"@, decimal_text(stats.critical_hits)),
        Seq::empty(),
        aligned("TOTAL MISS"@, decimal_text(stats.total_misses)),
        aligned("    * CONCEALED"@, decimal_text(stats.concealed_attacks)),
        aligned("    * EPIC DODGED"@, decimal_text(stats.epic_dodged_attacks)),
        Seq::empty(),
        aligned("TOTAL DAMAGE"@, decimal_text(total_of(stats.dmg_dealt))),
    ] + damage_lines(stats.dmg_dealt, 17)
}

/// The report of `stats`.
pub open spec fn stats_text(stats: StatsView) -> Seq<char> {
    join_lines(stats_lines(stats))
}

/// A text that grows line by line.
pub(crate) struct Page {
    text: String,
    started: bool,
    lines: Ghost<Seq<Seq<char>>>,
}

impl Page {
    pub(crate) closed spec fn lines(&self) -> Seq<Seq<char>> {
        self.lines@
    }

    pub(crate) closed spec fn wf(&self) -> bool {
        &&& self.text@ == join_lines(self.lines@)
        &&& self.started == (self.lines@.len() > 0)
    }

    pub(crate) fn new() -> (page: Page)
        ensures
            page.wf(),
            page.lines() == Seq::<Seq<char>>::empty(),
    {
        Page { text: String::new(), started: false, lines: Ghost(Seq::empty()) }
    }

    pub(crate) fn push(&mut self, line: &str)
        requires
            old(self).wf(),
        ensures
            final(self).wf(),
            final(self).lines() == old(self).lines().push(line@),
    {
        let ghost longer = self.lines@.push(line@);
        assert(longer.drop_last() =~= self.lines@);
        if self.started {
            proof {
                reveal_strlit("\n");
            }
            self.text.append("\n");
            self.text.append(line);
            assert(self.text@ =~= join_lines(longer));
        } else {
            self.text.append(line);
            assert(self.text@ =~= join_lines(longer));
        }
        self.started = true;
        self.lines = Ghost(longer);
    }

    pub(crate) fn finish(self) -> (text: String)
        requires
            self.wf(),
        ensures
            text@ == join_lines(self.lines()),
    {
        self.text
    }
}

/// A report line with a label of plain letters.
pub fn labeled(label: &str, value: String) -> (line: String)
    requires
        is_ascii_chars(label@),
        label@.len() <= LABEL_WIDTH,
    ensures
        line@ == aligned(label@, value@),
{
    proof {
        is_ascii_chars_encode_utf8(label@);
    }
    align_string(label, value)
}

fn damage_label_of(t: DamageType) -> (label: &'static str)
    ensures
        label@ == damage_label(t),
        is_ascii_chars(label@),
        label@.len() <= LABEL_WIDTH,
{
    match t {
        DamageType::Slashing => {
            proof {
                reveal_strlit("    * SLASHING");
            }
            "    * SLASHING"
        },
        DamageType::Piercing => {
            proof {
                reveal_strlit("    * PIERCING");
            }
            "    * PIERCING"
        },
        DamageType::Bludgeoning => {
            proof {
                reveal_strlit("    * BLUDGEONING");
            }
            "    * BLUDGEONING"
        },
        DamageType::Magical => {
            proof {
                reveal_strlit("    * MAGICAL");
            }
            "    * MAGICAL"
        },
        DamageType::Acid => {
            proof {
                reveal_strlit("    * ACID");
            }
            "    * ACID"
        },
        DamageType::Cold => {
            proof {
                reveal_strlit("    * COLD");
            }
            "    * COLD"
        },
        DamageType::Divine => {
            proof {
                reveal_strlit("    * DIVINE");
            }
            "    * DIVINE"
        },
        DamageType::Electrical => {
            proof {
                reveal_strlit("    * ELECTRICAL");
            }
            "    * ELECTRICAL"
        },
        DamageType::Fire => {
            proof {
                reveal_strlit("    * FIRE");
            }
            "    * FIRE"
        },
        DamageType::Negative => {
            proof {
                reveal_strlit("    * NEGATIVE");
            }
            "    * NEGATIVE"
        },
        DamageType::Positive => {
            proof {
                reveal_strlit("    * POSITIVE");
            }
            "    * POSITIVE"
        },
        DamageType::Sonic => {
            proof {
                reveal_strlit("    * SONIC");
            }
            "    * SONIC"
        },
        DamageType::Entropy => {
            proof {
                reveal_strlit("    * ENTROPY");
            }
            "    * ENTROPY"
        },
        DamageType::Force => {
            proof {
                reveal_strlit("    * FORCE");
            }
            "    * FORCE"
        },
        DamageType::Psychic => {
            proof {
                reveal_strlit("    * PSYCHIC");
            }
            "    * PSYCHIC"
        },
        DamageType::Poison => {
            proof {
                reveal_strlit("    * POISON");
            }
            "    * POISON"
        },
        DamageType::Unknown => {
            proof {
                reveal_strlit("    * UNKNOWN");
            }
            "    * UNKNOWN"
        },
    }
}

impl CombatStatistics {
    /// The report of the statistics.
    pub fn to_string(&self) -> (text: String)
        ensures
            text@ == stats_text(self@),
    {
        proof {
            reveal_strlit("TOTAL ATTACK");
            reveal_strlit("TOTAL HIT");
            reveal_strlit("    * CRITICAL HIT");
            reveal_strlit("TOTAL MISS");
            reveal_strlit("    * CONCEALED");
            reveal_strlit("    * EPIC DODGED");
            reveal_strlit("TOTAL DAMAGE");
            reveal_strlit("");
        }
        let mut page = Page::new();
        let attacks = decimal_wide(self.total_hits as i128 + self.total_misses as i128);
        page.push(labeled("TOTAL ATTACK", attacks).as_str());
        page.push(labeled("TOTAL HIT", decimal(self.total_hits)).as_str());
        page.push(labeled("    * CRITICAL HIT", decimal(self.critical_hits)).as_str());
        page.push("");
        page.push(labeled("TOTAL MISS", decimal(self.total_misses)).as_str());
        page.push(labeled("    * CONCEALED", decimal(self.concealed_attacks)).as_str());
        page.push(labeled("    * EPIC DODGED", decimal(self.epic_dodged_attacks)).as_str());
        page.push("");
        page.push(labeled("TOTAL DAMAGE", decimal(self.dmg_dealt.total_dmg_wide())).as_str());
        let ghost head = page.lines();
        assert(""@ =~= Seq::<char>::empty());
        assert(head + damage_lines(self@.dmg_dealt, 0) =~= head);
        let mut i: usize = 0;
        while i < 17
            invariant
                0 <= i <= 17,
                page.wf(),
                page.lines() == head + damage_lines(self@.dmg_dealt, i as int),
            decreases 17 - i,
        {
            let type_ = DamageType::from_index(i);
            if self.dmg_dealt.has(type_) {
                let amount = decimal(self.dmg_dealt.get(type_) as i64);
                page.push(labeled(damage_label_of(type_), amount).as_str());
            }
            assert(page.lines() =~= head + damage_lines(self@.dmg_dealt, i + 1));
            i = i + 1;
        }
        assert(head =~= stats_lines(self@).take(9));
        assert(page.lines() =~= stats_lines(self@));
        page.finish()
    }
}

/// Quotient of `a` by `b`, rounded toward zero as machine division does.
pub open spec fn quotient(a: int, b: int) -> int
    recommends
        b != 0,
{
    if b > 0 {
        trunc_div(a, b)
    } else {
        -trunc_div(a, -b)
    }
}

/// The rule that parts two profiles of a report.
pub open spec fn rule_text() -> Seq<char> {
    Seq::new(50, |i: int| '=')
}

/// The report of one profile: the armor class, the statistics, and the
/// damage of an average round, each set off by an empty line.
pub open spec fn profile_text(target_ac: i32, stats: StatsView, total_rounds: i32) -> Seq<char> {
    join_lines(
        seq![
            aligned("TARGET AC"@, decimal_text(target_ac as int)),
            Seq::empty(),
            stats_text(stats),
            Seq::empty(),
            aligned(
                "AVERAGE DAMAGE PER ROUND"@,
                decimal_text(quotient(total_of(stats.dmg_dealt), total_rounds as int)),
            ),
        ],
    )
}

/// The lines of a report of the first `n` profiles of `keys`: each profile
/// is followed by an empty line, and each but the last of all by a rule
/// and one more empty line.
pub open spec fn result_lines(
    statistics: Map<i32, CombatStatistics>,
    total_rounds: i32,
    keys: Seq<i32>,
    n: int,
) -> Seq<Seq<char>>
    decreases n,
{
    if n <= 0 {
        Seq::empty()
    } else {
        let before = result_lines(statistics, total_rounds, keys, n - 1);
        let profile = before.push(
            profile_text(keys[n - 1], statistics[keys[n - 1]]@, total_rounds),
        ).push(Seq::empty());
        if n != keys.len() {
            profile.push(rule_text()).push(Seq::empty())
        } else {
            profile
        }
    }
}

/// Whether `keys` holds the armor classes of `statistics`, each once, in
/// ascending order.
pub open spec fn is_ascending_keys(statistics: Map<i32, CombatStatistics>, keys: Seq<i32>) -> bool {
    &&& forall|i: int, j: int| 0 <= i < j < keys.len() ==> keys[i] < keys[j]
    &&& forall|k: i32| keys.contains(k) <==> statistics.dom().contains(k)
}

/// Puts `key` at its place in an ascending list that lacks it.
fn insert_ascending(keys: &mut Vec<i32>, key: i32)
    requires
        forall|i: int, j: int| 0 <= i < j < old(keys)@.len() ==> old(keys)@[i] < old(keys)@[j],
        !old(keys)@.contains(key),
    ensures
        forall|i: int, j: int| 0 <= i < j < final(keys)@.len() ==> final(keys)@[i] < final(keys)@[j],
        forall|k: i32| final(keys)@.contains(k) <==> (old(keys)@.contains(k) || k == key),
{
    let mut at: usize = 0;
    while at < keys.len() && keys[at] < key
        invariant
            0 <= at <= keys.len(),
            keys@ == old(keys)@,
            forall|i: int| 0 <= i < at ==> keys@[i] < key,
        decreases keys.len() - at,
    {
        at = at + 1;
    }
    let ghost before = keys@;
    assert(at < before.len() ==> before[at as int] > key) by {
        if at < before.len() {
            assert(before.contains(before[at as int]));
        }
    }
    keys.insert(at, key);
    assert forall|k: i32| keys@.contains(k) <==> (before.contains(k) || k == key) by {
        if keys@.contains(k) {
            let i = choose|i: int| 0 <= i < keys@.len() && keys@[i] == k;
            if i < at {
                assert(before[i] == k);
            } else if i > at {
                assert(before[i - 1] == k);
            }
        }
        if before.contains(k) {
            let i = choose|i: int| 0 <= i < before.len() && before[i] == k;
            if i < at {
                assert(keys@[i] == k);
            } else {
                assert(keys@[i + 1] == k);
            }
        }
        if k == key {
            assert(keys@[at as int] == k);
        }
    }
}

/// The armor classes of `statistics`, each once, in ascending order.
pub fn ascending_keys(statistics: &HashMap<i32, CombatStatistics>) -> (keys: Vec<i32>)
    ensures
        is_ascending_keys(statistics@, keys@),
{
    broadcast use vstd::std_specs::hash::group_hash_axioms;
    broadcast use vstd::std_specs::hash::axiom_spec_keys_iter;

    let mut keys: Vec<i32> = Vec::new();
    let ghost all = statistics.keys().remaining();
    for key in it: statistics.keys()
        invariant
            it.seq() == all,
            all.no_duplicates(),
            all.unref().to_set() == statistics@.dom(),
            forall|i: int, j: int| 0 <= i < j < keys@.len() ==> keys@[i] < keys@[j],
            forall|k: i32|
                keys@.contains(k) <==> exists|j: int| 0 <= j < it.index() && *all[j] == k,
    {
        let ghost at = it.index() as int;
        assert(!keys@.contains(*key)) by {
            if keys@.contains(*key) {
                let j = choose|j: int| 0 <= j < at && *all[j] == *key;
                assert(all[j] == all[at]);
            }
        }
        let ghost before = keys@;
        insert_ascending(&mut keys, *key);
        assert forall|k: i32|
            keys@.contains(k) <==> exists|j: int| 0 <= j < at + 1 && *all[j] == k by {
            if before.contains(k) {
                let j = choose|j: int| 0 <= j < at && *all[j] == k;
                assert(0 <= j < at + 1 && *all[j] == k);
            }
            if k == *key {
                assert(0 <= at < at + 1 && *all[at] == k);
            }
            if exists|j: int| 0 <= j < at + 1 && *all[j] == k {
                let j = choose|j: int| 0 <= j < at + 1 && *all[j] == k;
                if j < at {
                    assert(before.contains(k));
                }
            }
        }
    }
    assert forall|k: i32| keys@.contains(k) <==> statistics@.dom().contains(k) by {
        if keys@.contains(k) {
            let j = choose|j: int| 0 <= j < all.len() && *all[j] == k;
            assert(all.unref()[j] == k);
            assert(all.unref().contains(k));
        }
        if statistics@.dom().contains(k) {
            assert(all.unref().to_set().contains(k));
            assert(all.unref().contains(k));
            let j = choose|j: int| 0 <= j < all.unref().len() && all.unref()[j] == k;
            assert(*all[j] == k);
        }
    }
    keys
}

fn rule() -> (text: &'static str)
    ensures
        text@ == rule_text(),
{
    proof {
        reveal_strlit("==================================================");
    }
    let text = "==================================================";
    assert(text@ =~= rule_text());
    text
}

impl DamageTestResult {
    /// The report of the profile filed under `target_ac`; empty where none
    /// is filed there.
    pub fn target_ac_result_string(&self, target_ac: i32) -> (text: String)
        requires
            self.statistics@.dom().contains(target_ac) ==> self.total_rounds != 0,
        ensures
            text@ == if self.statistics@.dom().contains(target_ac) {
                profile_text(target_ac, self.statistics@[target_ac]@, self.total_rounds)
            } else {
                Seq::<char>::empty()
            },
    {
        broadcast use vstd::std_specs::hash::group_hash_axioms;

        match self.statistics.get(&target_ac) {
            None => String::new(),
            Some(target) => {
                proof {
                    reveal_strlit("TARGET AC");
                    reveal_strlit("AVERAGE DAMAGE PER ROUND");
                    reveal_strlit("");
                }
                assert(""@ =~= Seq::<char>::empty());
                let total: i64 = target.dmg_dealt.total_dmg_wide();
                let rounds: i64 = self.total_rounds as i64;
                let average: i64 = if rounds > 0 {
                    div_wide(total, rounds)
                } else {
                    proof {
                        lemma_trunc_div_bounds(total as int, -rounds);
                    }
                    -div_wide(total, -rounds)
                };
                let mut page = Page::new();
                page.push(labeled("TARGET AC", decimal(target_ac as i64)).as_str());
                page.push("");
                page.push(target.to_string().as_str());
                page.push("");
                page.push(labeled("AVERAGE DAMAGE PER ROUND", decimal(average)).as_str());
                assert(page.lines() =~= seq![
                    aligned("TARGET AC"@, decimal_text(target_ac as int)),
                    Seq::empty(),
                    stats_text(target@),
                    Seq::empty(),
                    aligned(
                        "AVERAGE DAMAGE PER ROUND"@,
                        decimal_text(quotient(total_of(target@.dmg_dealt), self.total_rounds as int)),
                    ),
                ]);
                page.finish()
            },
        }
    }

    /// The report of all profiles, in ascending order of their armor
    /// classes, parted by rules.
    pub fn to_string(&self) -> (text: String)
        requires
            self.statistics@.dom().len() > 0 ==> self.total_rounds != 0,
        ensures
            exists|keys: Seq<i32>|
                is_ascending_keys(self.statistics@, keys) && text@ == join_lines(
                    #[trigger] result_lines(
                        self.statistics@,
                        self.total_rounds,
                        keys,
                        keys.len() as int,
                    ),
                ),
    {
        broadcast use vstd::std_specs::hash::group_hash_axioms;

        proof {
            reveal_strlit("");
        }
        assert(""@ =~= Seq::<char>::empty());
        let ac_list = ascending_keys(&self.statistics);
        let mut page = Page::new();
        let mut i: usize = 0;
        while i < ac_list.len()
            invariant
                0 <= i <= ac_list.len(),
                is_ascending_keys(self.statistics@, ac_list@),
                self.statistics@.dom().len() > 0 ==> self.total_rounds != 0,
                ""@ == Seq::<char>::empty(),
                page.wf(),
                page.lines() == result_lines(
                    self.statistics@,
                    self.total_rounds,
                    ac_list@,
                    i as int,
                ),
            decreases ac_list.len() - i,
        {
            let ac: i32 = ac_list[i];
            proof {
                assert(ac_list@.contains(ac));
                assert(self.statistics@.dom().contains(ac));
                if self.statistics@.dom().len() == 0 {
                    assert(self.statistics@.dom().finite());
                    assert(self.statistics@.dom() =~= Set::<i32>::empty());
                }
            }
            page.push(self.target_ac_result_string(ac).as_str());
            page.push("");
            if i != ac_list.len() - 1 {
                page.push(rule());
                page.push("");
            }
            i = i + 1;
        }
        page.finish()
    }
}

} // verus!
