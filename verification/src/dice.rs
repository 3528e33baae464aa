//! Dice, and the random draw that rolls them.

use crate::arith::{lemma_mul_monotone, lemma_mul_step, mul_wide};
use rand::Rng;
use vstd::prelude::*;

pub mod notation;

verus! {

/// `rolls` dice of `faces` faces each, rolled together and summed.
#[derive(Clone, Copy, Debug, PartialEq, Eq, Structural)]
pub struct Dice {
    pub rolls: i32,
    pub faces: i32,
}

/// Draws one face of a die with `faces` faces.
///
/// Calls `rand::thread_rng().gen_range(1..=faces)`. The range must not be
/// empty, since `gen_range` panics on an empty range; the value it returns
/// lies within the range. Nothing else is claimed: two draws may differ.
/// The generator also panics where the system gives it no seed, which no
/// argument decides.
#[verifier::external_body]
fn draw_face(faces: i32) -> (face: i32)
    requires
        faces >= 1,
    ensures
        1 <= face <= faces,
{
    rand::thread_rng().gen_range(1..=faces)
}

impl Dice {
    /// How many single dice a roll draws: none when either count is not positive.
    pub open spec fn draws(self) -> int {
        if self.rolls > 0 && self.faces > 0 {
            self.rolls as int
        } else {
            0
        }
    }

    /// Smallest total of one roll: every die shows 1.
    pub open spec fn min_total(self) -> int {
        self.draws()
    }

    /// Largest total of one roll: every die shows its highest face.
    pub open spec fn max_total(self) -> int {
        self.draws() * self.faces
    }

    /// Whether `total` can come out of one roll.
    pub open spec fn admits(self, total: int) -> bool {
        self.min_total() <= total <= self.max_total()
    }

    /// Whether `total` can come out of `count` rolls summed; fewer than one
    /// roll gives 0.
    pub open spec fn admits_times(self, count: int, total: int) -> bool {
        if count < 1 {
            total == 0
        } else {
            count * self.min_total() <= total <= count * self.max_total()
        }
    }

    /// Whether the dice can be rolled: a die that is drawn has a face to show,
    /// and the largest total fits the machine integer.
    pub open spec fn can_roll(self) -> bool {
        self.rolls > 0 ==> self.faces >= 0 && self.max_total() <= i32::MAX
    }

    /// Whether `count` rolls can be summed within the machine integer.
    pub open spec fn can_roll_times(self, count: int) -> bool {
        count >= 1 ==> self.can_roll() && count * self.max_total() <= i32::MAX
    }

    pub fn new(rolls: i32, faces: i32) -> (dice: Self)
        ensures
            dice.rolls == rolls,
            dice.faces == faces,
    {
        Dice { rolls, faces }
    }

    /// The totals of a roll are ordered, and a roll that draws nothing
    /// totals 0.
    pub proof fn lemma_totals(self)
        ensures
            0 <= self.min_total() <= self.max_total(),
            self.draws() == 0 ==> self.max_total() == 0,
            self.draws() > 0 ==> self.max_total() == self.rolls * self.faces,
    {
        if self.draws() > 0 {
            lemma_mul_monotone(self.draws(), 1, self.draws(), self.faces as int);
        } else {
            assert(self.draws() * self.faces == 0) by (nonlinear_arith)
                requires
                    self.draws() == 0,
            ;
        }
    }

    /// Largest total of one roll.
    pub fn largest_total(&self) -> (r: i64)
        ensures
            r == self.max_total(),
            0 <= r <= 0x4000_0000_0000_0000,
    {
        proof {
            self.lemma_totals();
        }
        if self.rolls > 0 && self.faces > 0 {
            mul_wide(self.rolls, self.faces)
        } else {
            0
        }
    }

    /// Tells whether [`Dice::roll`] may be called.
    pub fn is_rollable(&self) -> (r: bool)
        ensures
            r == self.can_roll(),
    {
        if self.rolls <= 0 {
            return true;
        }
        self.faces >= 0 && self.largest_total() <= i32::MAX as i64
    }

    /// Tells whether [`Dice::roll_m`] may be called with `count`.
    pub fn is_rollable_times(&self, count: i32) -> (r: bool)
        ensures
            r == self.can_roll_times(count as int),
    {
        if count < 1 {
            return true;
        }
        if !self.is_rollable() {
            return false;
        }
        let single: i64 = self.largest_total();
        if single > i32::MAX as i64 {
            proof {
                lemma_mul_monotone(1, single as int, count as int, single as int);
            }
            return false;
        }
        let all: i64 = mul_wide(count, single as i32);
        all <= i32::MAX as i64
    }

    /// Tells whether `total` can come out of one roll.
    pub fn can_total(&self, total: i32) -> (r: bool)
        ensures
            r == self.admits(total as int),
    {
        proof {
            self.lemma_totals();
        }
        let least: i64 = if self.rolls > 0 && self.faces > 0 {
            self.rolls as i64
        } else {
            0
        };
        least <= total as i64 && total as i64 <= self.largest_total()
    }

    /// Tells whether `total` can come out of `count` rolls summed.
    pub fn can_total_times(&self, count: i32, total: i32) -> (r: bool)
        ensures
            r == self.admits_times(count as int, total as int),
    {
        if count < 1 {
            return total == 0;
        }
        let most: i128 = self.largest_total() as i128;
        let least: i128 = if self.rolls > 0 && self.faces > 0 {
            self.rolls as i128
        } else {
            0
        };
        proof {
            self.lemma_totals();
            lemma_mul_monotone(count as int, least as int, 0x7fff_ffff, 0x7fff_ffff);
            lemma_mul_monotone(count as int, most as int, 0x7fff_ffff, 0x4000_0000_0000_0000);
        }
        (count as i128) * least <= total as i128 && total as i128 <= (count as i128) * most
    }

    /// Rolls the dice once and sums the faces drawn.
    ///
    /// With no roll or no face nothing is drawn and the total is 0.
    pub fn roll(&self) -> (total: i32)
        requires
            self.can_roll(),
        ensures
            self.admits(total as int),
    {
        proof {
            self.lemma_totals();
        }
        if self.rolls <= 0 || self.faces == 0 {
            return 0;
        }
        let mut res: i32 = 0;
        let mut i: i32 = 0;
        while i < self.rolls
            invariant
                0 <= i <= self.rolls,
                self.faces >= 1,
                i <= res <= i * self.faces,
                self.rolls * self.faces <= i32::MAX,
            decreases self.rolls - i,
        {
            let face: i32 = draw_face(self.faces);
            proof {
                lemma_mul_step(i as int, self.faces as int);
                lemma_mul_monotone(i + 1, self.faces as int, self.rolls as int, self.faces as int);
            }
            res = res + face;
            i = i + 1;
        }
        res
    }

    /// Rolls the dice `count` times and sums the totals; fewer than one
    /// roll gives 0 without drawing.
    pub fn roll_m(&self, count: i32) -> (total: i32)
        requires
            self.can_roll_times(count as int),
        ensures
            self.admits_times(count as int, total as int),
    {
        if count < 1 {
            return 0;
        }
        proof {
            self.lemma_totals();
        }
        let mut res: i32 = 0;
        let mut i: i32 = 0;
        while i < count
            invariant
                0 <= i <= count,
                self.can_roll(),
                0 <= self.min_total() <= self.max_total(),
                i * self.min_total() <= res <= i * self.max_total(),
                count * self.max_total() <= i32::MAX,
            decreases count - i,
        {
            let once: i32 = self.roll();
            proof {
                lemma_mul_step(i as int, self.max_total());
                lemma_mul_step(i as int, self.min_total());
                lemma_mul_monotone(i + 1, self.max_total(), count as int, self.max_total());
            }
            res = res + once;
            i = i + 1;
        }
        res
    }
}

impl Default for Dice {
    fn default() -> (dice: Self)
        ensures
            dice == (Dice { rolls: 0, faces: 1 }),
    {
        Dice::new(0, 1)
    }
}

} // verus!
