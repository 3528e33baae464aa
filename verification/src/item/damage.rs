//! Damage types, damage dice, and per-type damage totals.

use crate::arith::max;
use crate::dice::Dice;
use crate::string::{lowercase, lowercase_of, same_text};
use vstd::prelude::*;
use vstd::std_specs::convert::FromSpecImpl;

verus! {

/// The kinds of damage a swing can deal.
#[derive(Clone, Copy, Debug, PartialEq, Eq, PartialOrd, Ord, Hash, Structural)]
pub enum DamageType {
    Slashing,
    Piercing,
    Bludgeoning,
    Magical,
    Acid,
    Cold,
    Divine,
    Electrical,
    Fire,
    Negative,
    Positive,
    Sonic,
    Entropy,
    Force,
    Psychic,
    Poison,
    Unknown,
}

/// How many damage types there are.
pub const DAMAGE_TYPE_COUNT: usize = 17;

impl DamageType {
    /// Position of the type in the order of declaration.
    pub open spec fn ordinal(self) -> int {
        match self {
            DamageType::Slashing => 0,
            DamageType::Piercing => 1,
            DamageType::Bludgeoning => 2,
            DamageType::Magical => 3,
            DamageType::Acid => 4,
            DamageType::Cold => 5,
            DamageType::Divine => 6,
            DamageType::Electrical => 7,
            DamageType::Fire => 8,
            DamageType::Negative => 9,
            DamageType::Positive => 10,
            DamageType::Sonic => 11,
            DamageType::Entropy => 12,
            DamageType::Force => 13,
            DamageType::Psychic => 14,
            DamageType::Poison => 15,
            DamageType::Unknown => 16,
        }
    }

    /// The type at position `i` of the order of declaration.
    pub open spec fn at(i: int) -> DamageType {
        if i == 0 {
            DamageType::Slashing
        } else if i == 1 {
            DamageType::Piercing
        } else if i == 2 {
            DamageType::Bludgeoning
        } else if i == 3 {
            DamageType::Magical
        } else if i == 4 {
            DamageType::Acid
        } else if i == 5 {
            DamageType::Cold
        } else if i == 6 {
            DamageType::Divine
        } else if i == 7 {
            DamageType::Electrical
        } else if i == 8 {
            DamageType::Fire
        } else if i == 9 {
            DamageType::Negative
        } else if i == 10 {
            DamageType::Positive
        } else if i == 11 {
            DamageType::Sonic
        } else if i == 12 {
            DamageType::Entropy
        } else if i == 13 {
            DamageType::Force
        } else if i == 14 {
            DamageType::Psychic
        } else if i == 15 {
            DamageType::Poison
        } else {
            DamageType::Unknown
        }
    }

    /// Slashing, piercing and bludgeoning damage is physical.
    pub open spec fn physical(self) -> bool {
        self == DamageType::Slashing || self == DamageType::Piercing || self
            == DamageType::Bludgeoning
    }

    /// Position of the type in the order of declaration.
    pub fn index(&self) -> (i: usize)
        ensures
            i == self.ordinal(),
            i < 17,
    {
        match self {
            DamageType::Slashing => 0,
            DamageType::Piercing => 1,
            DamageType::Bludgeoning => 2,
            DamageType::Magical => 3,
            DamageType::Acid => 4,
            DamageType::Cold => 5,
            DamageType::Divine => 6,
            DamageType::Electrical => 7,
            DamageType::Fire => 8,
            DamageType::Negative => 9,
            DamageType::Positive => 10,
            DamageType::Sonic => 11,
            DamageType::Entropy => 12,
            DamageType::Force => 13,
            DamageType::Psychic => 14,
            DamageType::Poison => 15,
            DamageType::Unknown => 16,
        }
    }

    /// The type at position `i` of the order of declaration.
    pub fn from_index(i: usize) -> (t: DamageType)
        requires
            i < 17,
        ensures
            t == DamageType::at(i as int),
            t.ordinal() == i,
    {
        if i == 0 {
            DamageType::Slashing
        } else if i == 1 {
            DamageType::Piercing
        } else if i == 2 {
            DamageType::Bludgeoning
        } else if i == 3 {
            DamageType::Magical
        } else if i == 4 {
            DamageType::Acid
        } else if i == 5 {
            DamageType::Cold
        } else if i == 6 {
            DamageType::Divine
        } else if i == 7 {
            DamageType::Electrical
        } else if i == 8 {
            DamageType::Fire
        } else if i == 9 {
            DamageType::Negative
        } else if i == 10 {
            DamageType::Positive
        } else if i == 11 {
            DamageType::Sonic
        } else if i == 12 {
            DamageType::Entropy
        } else if i == 13 {
            DamageType::Force
        } else if i == 14 {
            DamageType::Psychic
        } else if i == 15 {
            DamageType::Poison
        } else {
            DamageType::Unknown
        }
    }

    /// The name of the type, as it is declared.
    pub open spec fn name_text(self) -> Seq<char> {
        match self {
            DamageType::Slashing => "Slashing"@,
            DamageType::Piercing => "Piercing"@,
            DamageType::Bludgeoning => "Bludgeoning"@,
            DamageType::Magical => "Magical"@,
            DamageType::Acid => "Acid"@,
            DamageType::Cold => "Cold"@,
            DamageType::Divine => "Divine"@,
            DamageType::Electrical => "Electrical"@,
            DamageType::Fire => "Fire"@,
            DamageType::Negative => "Negative"@,
            DamageType::Positive => "Positive"@,
            DamageType::Sonic => "Sonic"@,
            DamageType::Entropy => "Entropy"@,
            DamageType::Force => "Force"@,
            DamageType::Psychic => "Psychic"@,
            DamageType::Poison => "Poison"@,
            DamageType::Unknown => "Unknown"@,
        }
    }

    pub fn name(&self) -> (name: String)
        ensures
            name@ == self.name_text(),
    {
        let name = match self {
            DamageType::Slashing => "Slashing",
            DamageType::Piercing => "Piercing",
            DamageType::Bludgeoning => "Bludgeoning",
            DamageType::Magical => "Magical",
            DamageType::Acid => "Acid",
            DamageType::Cold => "Cold",
            DamageType::Divine => "Divine",
            DamageType::Electrical => "Electrical",
            DamageType::Fire => "Fire",
            DamageType::Negative => "Negative",
            DamageType::Positive => "Positive",
            DamageType::Sonic => "Sonic",
            DamageType::Entropy => "Entropy",
            DamageType::Force => "Force",
            DamageType::Psychic => "Psychic",
            DamageType::Poison => "Poison",
            DamageType::Unknown => "Unknown",
        };
        String::from_str(name)
    }

    /// The damage type that a lower-case name stands for.
    pub fn from_lowercase(lower: &str) -> (r: DamageType)
        ensures
            r == damage_type_named(lower@),
    {
        if same_text(lower, "slashing") {
            DamageType::Slashing
        } else if same_text(lower, "piercing") {
            DamageType::Piercing
        } else if same_text(lower, "bludgeoning") {
            DamageType::Bludgeoning
        } else if same_text(lower, "magical") {
            DamageType::Magical
        } else if same_text(lower, "acid") {
            DamageType::Acid
        } else if same_text(lower, "cold") {
            DamageType::Cold
        } else if same_text(lower, "divine") {
            DamageType::Divine
        } else if same_text(lower, "electrical") {
            DamageType::Electrical
        } else if same_text(lower, "fire") {
            DamageType::Fire
        } else if same_text(lower, "negative") {
            DamageType::Negative
        } else if same_text(lower, "positive") {
            DamageType::Positive
        } else if same_text(lower, "sonic") {
            DamageType::Sonic
        } else if same_text(lower, "entropy") {
            DamageType::Entropy
        } else if same_text(lower, "force") {
            DamageType::Force
        } else if same_text(lower, "psychic") {
            DamageType::Psychic
        } else if same_text(lower, "poison") {
            DamageType::Poison
        } else {
            DamageType::Unknown
        }
    }

    pub fn is_physical(&self) -> (r: bool)
        ensures
            r == self.physical(),
    {
        match self {
            DamageType::Slashing | DamageType::Piercing | DamageType::Bludgeoning => true,
            _ => false,
        }
    }
}

/// The damage type that a lower-case name stands for; a name that stands
/// for none is unknown.
pub open spec fn damage_type_named(lower: Seq<char>) -> DamageType {
    if lower == "slashing"@ {
        DamageType::Slashing
    } else if lower == "piercing"@ {
        DamageType::Piercing
    } else if lower == "bludgeoning"@ {
        DamageType::Bludgeoning
    } else if lower == "magical"@ {
        DamageType::Magical
    } else if lower == "acid"@ {
        DamageType::Acid
    } else if lower == "cold"@ {
        DamageType::Cold
    } else if lower == "divine"@ {
        DamageType::Divine
    } else if lower == "electrical"@ {
        DamageType::Electrical
    } else if lower == "fire"@ {
        DamageType::Fire
    } else if lower == "negative"@ {
        DamageType::Negative
    } else if lower == "positive"@ {
        DamageType::Positive
    } else if lower == "sonic"@ {
        DamageType::Sonic
    } else if lower == "entropy"@ {
        DamageType::Entropy
    } else if lower == "force"@ {
        DamageType::Force
    } else if lower == "psychic"@ {
        DamageType::Psychic
    } else if lower == "poison"@ {
        DamageType::Poison
    } else {
        DamageType::Unknown
    }
}

impl From<&str> for DamageType {
    /// The damage type that a name stands for, whatever the case of its
    /// letters.
    fn from(value: &str) -> (r: Self) {
        let lower = lowercase(value);
        DamageType::from_lowercase(lower.as_str())
    }
}

impl FromSpecImpl<&str> for DamageType {
    open spec fn obeys_from_spec() -> bool {
        true
    }

    open spec fn from_spec(value: &str) -> Self {
        damage_type_named(lowercase_of(value@))
    }
}

/// Damage dice of one type, as a weapon property carries them.
#[derive(Clone, Copy, Debug, PartialEq, Eq, Structural)]
pub struct Damage {
    pub amount: Dice,
    pub type_: DamageType,
    pub is_resistable: bool,
    pub can_crit: bool,
}

impl Damage {
    pub fn new(type_: DamageType, amount: Dice, is_resistable: bool, can_crit: bool) -> (d: Self)
        ensures
            d == (Damage { amount, type_, is_resistable, can_crit }),
    {
        Damage { type_, amount, is_resistable, can_crit }
    }

    /// Rolls the damage dice once.
    pub fn roll(&self) -> (total: i32)
        requires
            self.amount.can_roll(),
        ensures
            self.amount.admits(total as int),
    {
        self.amount.roll()
    }

    /// Rolls the damage dice `count` times and sums the totals.
    pub fn roll_m(&self, count: i32) -> (total: i32)
        requires
            self.amount.can_roll_times(count as int),
        ensures
            self.amount.admits_times(count as int, total as int),
    {
        self.amount.roll_m(count)
    }
}

/// Per-type damage totals, summed up over a swing, a round or a simulation.
///
/// Its view maps each type that has an entry to the amount recorded for it.
#[derive(Clone, Copy, Debug)]
pub struct DamageResult {
    amounts: [Option<i32>; 17],
}

impl View for DamageResult {
    type V = Map<DamageType, int>;

    closed spec fn view(&self) -> Map<DamageType, int> {
        Map::new(
            |t: DamageType| self.amounts[t.ordinal()] is Some,
            |t: DamageType| self.amounts[t.ordinal()]->0 as int,
        )
    }
}

/// The amount recorded for `t`, 0 where none is.
pub open spec fn amount_in(m: Map<DamageType, int>, t: DamageType) -> int {
    if m.dom().contains(t) {
        m[t]
    } else {
        0
    }
}

/// `m` after `amount` was added to the entry of `t`, which starts at 0.
pub open spec fn with_added(m: Map<DamageType, int>, t: DamageType, amount: int) -> Map<
    DamageType,
    int,
> {
    m.insert(t, amount_in(m, t) + amount)
}

/// `m` after `amount` was taken from the entry of `t` and the entry clamped
/// at zero; a type without an entry gets none.
pub open spec fn with_subtracted(m: Map<DamageType, int>, t: DamageType, amount: int) -> Map<
    DamageType,
    int,
> {
    if m.dom().contains(t) {
        m.insert(t, max(0, m[t] - amount))
    } else {
        m
    }
}

/// Every amount of `m` lies within `limit` of zero.
pub open spec fn map_within(m: Map<DamageType, int>, limit: int) -> bool {
    forall|t: DamageType| -limit <= #[trigger] amount_in(m, t) <= limit
}

/// Adding an amount of bounded size widens the bound by that size.
pub proof fn lemma_added_within(
    m: Map<DamageType, int>,
    t: DamageType,
    amount: int,
    limit: int,
    step: int,
)
    requires
        map_within(m, limit),
        -step <= amount <= step,
    ensures
        map_within(with_added(m, t, amount), limit + step),
        -(limit + step) <= amount_in(m, t) + amount <= limit + step,
{
    assert(-limit <= amount_in(m, t) <= limit);
    assert forall|u: DamageType| -(limit + step) <= #[trigger] amount_in(
        with_added(m, t, amount),
        u,
    ) <= limit + step by {
        assert(-limit <= amount_in(m, u) <= limit);
    }
}

/// Per-type sums of two totals: a type has an entry where either has one.
pub open spec fn merged(a: Map<DamageType, int>, b: Map<DamageType, int>) -> Map<
    DamageType,
    int,
> {
    Map::new(
        |t: DamageType| a.dom().contains(t) || b.dom().contains(t),
        |t: DamageType| amount_in(a, t) + amount_in(b, t),
    )
}

/// Sum of the amounts of the first `n` types in the order of declaration.
pub open spec fn total_upto(m: Map<DamageType, int>, n: int) -> int
    decreases n,
{
    if n <= 0 {
        0
    } else {
        total_upto(m, n - 1) + amount_in(m, DamageType::at(n - 1))
    }
}

/// Sum of the amounts of all types.
pub open spec fn total_of(m: Map<DamageType, int>) -> int {
    total_upto(m, 17)
}

/// Merging is commutative: the order of the two operands does not matter.
pub proof fn lemma_merged_commutative(a: Map<DamageType, int>, b: Map<DamageType, int>)
    ensures
        merged(a, b) == merged(b, a),
{
    assert(merged(a, b) =~= merged(b, a));
}

/// Merging is associative: three totals merge to the same sums however they
/// are grouped.
pub proof fn lemma_merged_associative(
    a: Map<DamageType, int>,
    b: Map<DamageType, int>,
    c: Map<DamageType, int>,
)
    ensures
        merged(merged(a, b), c) == merged(a, merged(b, c)),
{
    assert(merged(merged(a, b), c) =~= merged(a, merged(b, c)));
}

/// Three totals merge to the per-type sums of the three, in whatever order
/// and grouping they are merged.
pub proof fn lemma_merge_order(a: DamageResult, b: DamageResult, c: DamageResult)
    ensures
        merged(merged(a@, b@), c@) == merged(merged(c@, b@), a@),
        merged(merged(a@, b@), c@) == merged(a@, merged(b@, c@)),
        forall|t: DamageType|
            #[trigger] amount_in(merged(merged(a@, b@), c@), t) == amount_in(a@, t) + amount_in(
                b@,
                t,
            ) + amount_in(c@, t),
        forall|t: DamageType|
            merged(merged(a@, b@), c@).dom().contains(t) <==> a@.dom().contains(t)
                || b@.dom().contains(t) || c@.dom().contains(t),
{
    assert(merged(merged(a@, b@), c@) =~= merged(merged(c@, b@), a@));
    assert(merged(merged(a@, b@), c@) =~= merged(a@, merged(b@, c@)));
}

/// Merging sums per type, whatever the order of the operands.
pub proof fn lemma_merged_amounts(a: Map<DamageType, int>, b: Map<DamageType, int>, t: DamageType)
    ensures
        amount_in(merged(a, b), t) == amount_in(a, t) + amount_in(b, t),
        amount_in(merged(b, a), t) == amount_in(a, t) + amount_in(b, t),
{
}

/// The empty total is neutral for merging.
pub proof fn lemma_merged_empty(a: Map<DamageType, int>)
    ensures
        merged(a, Map::empty()) == a,
        merged(Map::empty(), a) == a,
{
    assert(merged(a, Map::empty()) =~= a);
    assert(merged(Map::empty(), a) =~= a);
}

/// The total of a merge is the sum of the totals.
pub proof fn lemma_total_of_merged(a: Map<DamageType, int>, b: Map<DamageType, int>)
    ensures
        total_of(merged(a, b)) == total_of(a) + total_of(b),
{
    lemma_total_upto_merged(a, b, 17);
}

proof fn lemma_total_upto_merged(a: Map<DamageType, int>, b: Map<DamageType, int>, n: int)
    ensures
        total_upto(merged(a, b), n) == total_upto(a, n) + total_upto(b, n),
    decreases n,
{
    if n > 0 {
        lemma_total_upto_merged(a, b, n - 1);
    }
}

/// Subtracting never leaves the entry of the type below zero.
pub proof fn lemma_subtracted_not_negative(m: Map<DamageType, int>, t: DamageType, amount: int)
    ensures
        m.dom().contains(t) ==> with_subtracted(m, t, amount)[t] >= 0,
        m.dom().contains(t) ==> with_subtracted(m, t, amount)[t] == max(0, m[t] - amount),
        !m.dom().contains(t) ==> with_subtracted(m, t, amount) == m,
        forall|u: DamageType| u != t ==> amount_in(with_subtracted(m, t, amount), u) == amount_in(m, u),
{
}

impl DamageResult {
    /// Every amount recorded lies within `limit` of zero.
    pub open spec fn within(&self, limit: int) -> bool {
        map_within(self@, limit)
    }

    /// Every amount recorded is a machine integer.
    pub proof fn lemma_amounts_fit(&self)
        ensures
            forall|t: DamageType| i32::MIN <= #[trigger] amount_in(self@, t) <= i32::MAX,
    {
    }

    /// No type has an entry yet.
    pub fn new() -> (r: Self)
        ensures
            r@ == Map::<DamageType, int>::empty(),
    {
        let r = DamageResult { amounts: [None; 17] };
        assert(r@ =~= Map::<DamageType, int>::empty());
        r
    }

    /// Adds `amount` to the entry of `type_`, which starts at 0.
    pub fn set(&mut self, type_: DamageType, amount: i32)
        requires
            i32::MIN <= amount_in(old(self)@, type_) + amount <= i32::MAX,
        ensures
            final(self)@ == with_added(old(self)@, type_, amount as int),
    {
        let _ = self.add(type_, amount);
    }

    /// The amount recorded for `type_`, 0 where none is.
    pub fn get(&self, type_: DamageType) -> (amount: i32)
        ensures
            amount == amount_in(self@, type_),
    {
        match self.amounts[type_.index()] {
            Some(a) => a,
            None => 0,
        }
    }

    /// Whether `type_` has an entry.
    pub fn has(&self, type_: DamageType) -> (r: bool)
        ensures
            r == self@.dom().contains(type_),
    {
        self.amounts[type_.index()].is_some()
    }

    /// The types that have an entry, each once, in the order of declaration.
    pub fn get_types(&self) -> (types: Vec<DamageType>)
        ensures
            types@.to_set() == self@.dom(),
            forall|i: int, j: int|
                0 <= i < j < types.len() ==> (#[trigger] types[i]).ordinal() < (
                #[trigger] types[j]).ordinal(),
    {
        let mut types: Vec<DamageType> = Vec::new();
        let mut i: usize = 0;
        while i < 17
            invariant
                0 <= i <= 17,
                forall|k: int| 0 <= k < types.len() ==> (#[trigger] types[k]).ordinal() < i,
                forall|k: int| 0 <= k < types.len() ==> self@.dom().contains(#[trigger] types[k]),
                forall|t: DamageType|
                    self@.dom().contains(t) && t.ordinal() < i ==> types@.contains(t),
                forall|k: int, j: int|
                    0 <= k < j < types.len() ==> (#[trigger] types[k]).ordinal() < (
                    #[trigger] types[j]).ordinal(),
            decreases 17 - i,
        {
            let t = DamageType::from_index(i);
            if self.amounts[i].is_some() {
                let ghost before = types@;
                types.push(t);
                assert forall|u: DamageType|
                    self@.dom().contains(u) && u.ordinal() < i + 1 implies types@.contains(u) by {
                    if u.ordinal() < i {
                        assert(before.contains(u));
                        let k = choose|k: int| 0 <= k < before.len() && before[k] == u;
                        assert(types@[k] == u);
                    } else {
                        assert(types@[types.len() - 1] == u);
                    }
                }
            }
            i = i + 1;
        }
        assert(types@.to_set() =~= self@.dom());
        types
    }

    /// The types that have an entry, each once, in ascending order.
    pub fn get_types_sorted(&self) -> (types: Vec<DamageType>)
        ensures
            types@.to_set() == self@.dom(),
            forall|i: int, j: int|
                0 <= i < j < types.len() ==> (#[trigger] types[i]).ordinal() < (
                #[trigger] types[j]).ordinal(),
    {
        self.get_types()
    }

    /// Adds `amount` to the entry of `type_`, which starts at 0, and returns
    /// the new amount.
    pub fn add(&mut self, type_: DamageType, amount: i32) -> (now: i32)
        requires
            i32::MIN <= amount_in(old(self)@, type_) + amount <= i32::MAX,
        ensures
            final(self)@ == with_added(old(self)@, type_, amount as int),
            now == amount_in(old(self)@, type_) + amount,
    {
        let i: usize = type_.index();
        let current: i32 = match self.amounts[i] {
            Some(a) => a,
            None => 0,
        };
        let now: i32 = current + amount;
        self.amounts[i] = Some(now);
        assert(self@ =~= with_added(old(self)@, type_, amount as int));
        now
    }

    /// Takes `amount` from the entry of `type_`, clamps the entry at zero and
    /// returns it; a type without an entry is left without one and gives 0.
    pub fn sub(&mut self, type_: DamageType, amount: i32) -> (now: i32)
        requires
            amount_in(old(self)@, type_) - amount <= i32::MAX,
        ensures
            final(self)@ == with_subtracted(old(self)@, type_, amount as int),
            now == amount_in(final(self)@, type_),
            now >= 0,
    {
        let i: usize = type_.index();
        match self.amounts[i] {
            Some(current) => {
                let lowered: i64 = current as i64 - amount as i64;
                let now: i32 = if lowered < 0 {
                    0
                } else {
                    lowered as i32
                };
                self.amounts[i] = Some(now);
                assert(self@ =~= with_subtracted(old(self)@, type_, amount as int));
                now
            },
            None => 0,
        }
    }

    /// Sum of all amounts, which may be wider than one amount.
    pub fn total_dmg_wide(&self) -> (total: i64)
        ensures
            total == total_of(self@),
            -0x8_8000_0000 <= total <= 0x8_8000_0000,
    {
        let mut total: i64 = 0;
        let mut i: usize = 0;
        while i < 17
            invariant
                0 <= i <= 17,
                total == total_upto(self@, i as int),
                -0x8000_0000 * i <= total <= 0x8000_0000 * i,
            decreases 17 - i,
        {
            let t = DamageType::from_index(i);
            let a: i32 = self.get(t);
            total = total + a as i64;
            i = i + 1;
        }
        total
    }

    /// Sum of all amounts.
    pub fn total_dmg(&self) -> (total: i32)
        requires
            i32::MIN <= total_of(self@) <= i32::MAX,
        ensures
            total == total_of(self@),
    {
        self.total_dmg_wide() as i32
    }

    /// Whether [`DamageResult::add_from`] may be called with `other`: every
    /// per-type sum fits the machine integer.
    pub open spec fn can_add_from(&self, other: &DamageResult) -> bool {
        forall|t: DamageType|
            i32::MIN <= #[trigger] amount_in(self@, t) + amount_in(other@, t) <= i32::MAX
    }

    /// Tells whether [`DamageResult::add_from`] may be called with `other`.
    pub fn fits_with(&self, other: &DamageResult) -> (r: bool)
        ensures
            r == self.can_add_from(other),
    {
        let mut i: usize = 0;
        while i < 17
            invariant
                0 <= i <= 17,
                forall|t: DamageType|
                    t.ordinal() < i ==> i32::MIN <= #[trigger] amount_in(self@, t) + amount_in(
                        other@,
                        t,
                    ) <= i32::MAX,
            decreases 17 - i,
        {
            let t = DamageType::from_index(i);
            let sum: i64 = self.get(t) as i64 + other.get(t) as i64;
            if sum < i32::MIN as i64 || sum > i32::MAX as i64 {
                return false;
            }
            i = i + 1;
        }
        true
    }

    /// Merges `other` into `self`: per-type sums, with an entry for every type
    /// that either had one.
    pub fn add_from(&mut self, other: &DamageResult)
        requires
            old(self).can_add_from(other),
        ensures
            final(self)@ == merged(old(self)@, other@),
    {
        let mut i: usize = 0;
        while i < 17
            invariant
                0 <= i <= 17,
                old(self).can_add_from(other),
                forall|t: DamageType|
                    t.ordinal() < i ==> (self@.dom().contains(t) <==> merged(
                        old(self)@,
                        other@,
                    ).dom().contains(t)),
                forall|t: DamageType|
                    t.ordinal() < i ==> amount_in(self@, t) == #[trigger] amount_in(old(self)@, t)
                        + amount_in(other@, t),
                forall|t: DamageType|
                    t.ordinal() >= i ==> (self@.dom().contains(t) <==> old(self)@.dom().contains(t)),
                forall|t: DamageType|
                    t.ordinal() >= i ==> amount_in(self@, t) == #[trigger] amount_in(old(self)@, t),
            decreases 17 - i,
        {
            let t = DamageType::from_index(i);
            if other.has(t) {
                let ghost before = self@;
                assert(amount_in(before, t) == amount_in(old(self)@, t));
                let _ = self.add(t, other.get(t));
                assert forall|u: DamageType| u != t implies amount_in(self@, u) == amount_in(
                    before,
                    u,
                ) && (self@.dom().contains(u) <==> before.dom().contains(u)) by {}
            }
            i = i + 1;
        }
        assert(self@ =~= merged(old(self)@, other@));
    }
}

impl Default for DamageResult {
    fn default() -> (r: Self)
        ensures
            r@ == Map::<DamageType, int>::empty(),
    {
        DamageResult::new()
    }
}

} // verus!
