//! Dice notation: a number of rolls, the letter `d`, a number of faces.

use crate::dice::Dice;
use crate::item::damage::Damage;
use crate::string::{chars_of, decimal, decimal_text};
use vstd::prelude::*;
use vstd::std_specs::convert::FromSpecImpl;

verus! {

/// Why a text is no dice notation.
#[derive(Clone, Copy, Debug, PartialEq, Eq, Structural)]
pub enum DiceParseError {
    /// The text does not hold the letter `d` exactly once.
    Separator,
    /// What stands before the `d` is no number.
    Rolls,
    /// What stands after the `d` is no number.
    Faces,
}

/// Whether `c` is a decimal digit.
pub open spec fn is_digit(c: char) -> bool {
    48 <= c as u32 <= 57
}

/// The number that a text of digits writes.
pub open spec fn digits_value(s: Seq<char>) -> int
    decreases s.len(),
{
    if s.len() == 0 {
        0
    } else {
        digits_value(s.drop_last()) * 10 + (s.last() as u32 - 48)
    }
}

/// Whether every character of `s` is a digit.
pub open spec fn all_digits(s: Seq<char>) -> bool {
    forall|i: int| 0 <= i < s.len() ==> is_digit(#[trigger] s[i])
}

/// What follows the sign of a number text, or the whole text where it has
/// no sign.
pub open spec fn unsigned_part(s: Seq<char>) -> Seq<char> {
    if s.len() > 0 && (s[0] == '-' || s[0] == '+') {
        s.skip(1)
    } else {
        s
    }
}

/// The number that `s` writes: an optional sign, then one digit or more,
/// within the machine integer; none for any other text.
pub open spec fn number_text(s: Seq<char>) -> Option<int> {
    let body = unsigned_part(s);
    if body.len() == 0 || !all_digits(body) {
        None
    } else {
        let value = if s[0] == '-' {
            -digits_value(body)
        } else {
            digits_value(body)
        };
        if i32::MIN <= value <= i32::MAX {
            Some(value)
        } else {
            None
        }
    }
}

/// The number that `s` writes, 0 where it writes none.
pub open spec fn lenient_number(s: Seq<char>) -> int {
    match number_text(s) {
        Some(value) => value,
        None => 0,
    }
}

/// Whether the only `d` of `s` stands at `i`.
pub open spec fn splits_at(s: Seq<char>, i: int) -> bool {
    &&& 0 <= i < s.len()
    &&& s[i] == 'd'
    &&& forall|j: int| 0 <= j < s.len() && j != i ==> s[j] != 'd'
}

/// Whether `s` holds the letter `d` exactly once.
pub open spec fn has_one_separator(s: Seq<char>) -> bool {
    exists|i: int| splits_at(s, i)
}

/// Where the only `d` of `s` stands.
pub open spec fn separator_of(s: Seq<char>) -> int {
    choose|i: int| splits_at(s, i)
}

/// The dice that `s` writes, read leniently: a text without exactly one
/// `d` gives no dice and no faces, and a side that is no number gives 0.
pub open spec fn lenient_dice(s: Seq<char>) -> Dice {
    if has_one_separator(s) {
        let i = separator_of(s);
        Dice {
            rolls: lenient_number(s.subrange(0, i)) as i32,
            faces: lenient_number(s.subrange(i + 1, s.len() as int)) as i32,
        }
    } else {
        Dice { rolls: 0, faces: 0 }
    }
}

/// The dice that `s` writes, read strictly: each fault of the text is an
/// error of its own, the separator first, then the rolls, then the faces.
pub open spec fn strict_dice(s: Seq<char>) -> Result<Dice, DiceParseError> {
    if !has_one_separator(s) {
        Err(DiceParseError::Separator)
    } else {
        let i = separator_of(s);
        match number_text(s.subrange(0, i)) {
            None => Err(DiceParseError::Rolls),
            Some(rolls) => match number_text(s.subrange(i + 1, s.len() as int)) {
                None => Err(DiceParseError::Faces),
                Some(faces) => Ok(Dice { rolls: rolls as i32, faces: faces as i32 }),
            },
        }
    }
}

/// The text that writes `dice`: rolls, the letter `d`, faces.
pub open spec fn dice_text(dice: Dice) -> Seq<char> {
    decimal_text(dice.rolls as int) + seq!['d'] + decimal_text(dice.faces as int)
}

/// A text of digits writes a number that is not negative and not less than
/// the number that any of its beginnings writes.
pub proof fn lemma_digits_grow(s: Seq<char>, k: int)
    requires
        all_digits(s),
        0 <= k <= s.len(),
    ensures
        0 <= digits_value(s.take(k)) <= digits_value(s),
    decreases s.len() - k,
{
    lemma_digits_not_negative(s.take(k));
    if k == s.len() {
        assert(s.take(k) =~= s);
    } else {
        lemma_digits_grow(s, k + 1);
        assert(s.take(k + 1).drop_last() =~= s.take(k));
        assert(is_digit(s[k]));
        assert(s.take(k + 1).last() == s[k]);
    }
}

/// A text of digits writes a number that is not negative.
pub proof fn lemma_digits_not_negative(s: Seq<char>)
    requires
        all_digits(s),
    ensures
        0 <= digits_value(s),
    decreases s.len(),
{
    if s.len() > 0 {
        lemma_digits_not_negative(s.drop_last());
        assert(is_digit(s[s.len() - 1]));
    }
}

/// Reads the number that `chars[from..to]` writes.
pub fn parse_number(chars: &Vec<char>, from: usize, to: usize) -> (r: Option<i32>)
    requires
        from <= to <= chars.len(),
    ensures
        match r {
            Some(value) => number_text(chars@.subrange(from as int, to as int)) == Some(
                value as int,
            ),
            None => number_text(chars@.subrange(from as int, to as int)) is None,
        },
{
    let ghost text = chars@.subrange(from as int, to as int);
    if from == to {
        return None;
    }
    let first: char = chars[from];
    assert(text[0] == first);
    let negative: bool = first == '-';
    let start: usize = if first == '-' || first == '+' {
        from + 1
    } else {
        from
    };
    let ghost body = chars@.subrange(start as int, to as int);
    assert(body =~= unsigned_part(text));
    if start == to {
        return None;
    }
    let mut acc: i64 = 0;
    let mut i: usize = start;
    while i < to
        invariant
            from <= start <= i <= to,
            start < to,
            to <= chars.len(),
            text == chars@.subrange(from as int, to as int),
            body == chars@.subrange(start as int, to as int),
            body == unsigned_part(text),
            forall|k: int| 0 <= k < i - start ==> is_digit(#[trigger] body[k]),
            acc == digits_value(body.take(i - start)),
            0 <= acc <= 0x8000_0000,
        decreases to - i,
    {
        let c: char = chars[i];
        assert(body[i - start] == c);
        let code: u32 = c as u32;
        if code < 48 || code > 57 {
            assert(!is_digit(body[i - start]));
            return None;
        }
        let digit: i64 = (code - 48) as i64;
        let ghost longer = body.take(i - start + 1);
        assert(longer.drop_last() =~= body.take(i - start));
        assert(longer.last() == c);
        acc = acc * 10 + digit;
        if acc > 0x8000_0000 {
            proof {
                if all_digits(body) {
                    lemma_digits_grow(body, i - start + 1);
                }
            }
            return None;
        }
        i = i + 1;
    }
    assert(body.take(to - start) =~= body);
    let value: i64 = if negative {
        -acc
    } else {
        acc
    };
    if value > i32::MAX as i64 {
        None
    } else {
        Some(value as i32)
    }
}

/// Finds the only `d` of `chars`.
pub fn find_separator(chars: &Vec<char>) -> (r: Option<usize>)
    ensures
        match r {
            Some(i) => splits_at(chars@, i as int),
            None => !has_one_separator(chars@),
        },
{
    let mut found: Option<usize> = None;
    let mut i: usize = 0;
    while i < chars.len()
        invariant
            0 <= i <= chars.len(),
            match found {
                Some(at) => at < i && chars@[at as int] == 'd' && forall|j: int|
                    0 <= j < i && j != at ==> chars@[j] != 'd',
                None => forall|j: int| 0 <= j < i ==> chars@[j] != 'd',
            },
        decreases chars.len() - i,
    {
        if chars[i] == 'd' {
            match found {
                Some(at) => {
                    assert forall|k: int| !splits_at(chars@, k) by {
                        if splits_at(chars@, k) {
                            if k == at {
                                assert(chars@[i as int] != 'd');
                            } else {
                                assert(chars@[at as int] != 'd');
                            }
                        }
                    }
                    return None;
                },
                None => {
                    found = Some(i);
                },
            }
        }
        i = i + 1;
    }
    found
}

impl Dice {
    /// Reads dice notation strictly.
    pub fn parse(notation: &str) -> (r: Result<Dice, DiceParseError>)
        ensures
            r == strict_dice(notation@),
    {
        let chars = chars_of(notation);
        match find_separator(&chars) {
            None => Err(DiceParseError::Separator),
            Some(at) => {
                proof {
                    lemma_separator_unique(chars@, at as int);
                }
                match parse_number(&chars, 0, at) {
                    None => Err(DiceParseError::Rolls),
                    Some(rolls) => match parse_number(&chars, at + 1, chars.len()) {
                        None => Err(DiceParseError::Faces),
                        Some(faces) => Ok(Dice::new(rolls, faces)),
                    },
                }
            },
        }
    }

    /// Reads dice notation leniently: a text that is no dice notation gives
    /// dice that roll nothing.
    pub fn parse_lenient(notation: &str) -> (dice: Dice)
        ensures
            dice == lenient_dice(notation@),
    {
        let chars = chars_of(notation);
        match find_separator(&chars) {
            None => Dice::new(0, 0),
            Some(at) => {
                proof {
                    lemma_separator_unique(chars@, at as int);
                }
                let rolls: i32 = match parse_number(&chars, 0, at) {
                    Some(value) => value,
                    None => 0,
                };
                let faces: i32 = match parse_number(&chars, at + 1, chars.len()) {
                    Some(value) => value,
                    None => 0,
                };
                Dice::new(rolls, faces)
            },
        }
    }

    /// The notation of the dice.
    pub fn to_string(&self) -> (text: String)
        ensures
            text@ == dice_text(*self),
    {
        let mut text = decimal(self.rolls as i64);
        proof {
            reveal_strlit("d");
        }
        text.append("d");
        let faces = decimal(self.faces as i64);
        text.append(faces.as_str());
        assert(text@ =~= dice_text(*self));
        text
    }
}

impl Damage {
    /// The damage in words: the notation of its dice.
    pub fn to_string(&self) -> (text: String)
        ensures
            text@ == dice_text(self.amount),
    {
        self.amount.to_string()
    }
}

/// A text with one `d` has it at one place only.
pub proof fn lemma_separator_unique(s: Seq<char>, i: int)
    requires
        splits_at(s, i),
    ensures
        has_one_separator(s),
        separator_of(s) == i,
{
    let j = separator_of(s);
    assert(splits_at(s, j));
}

impl From<i32> for Dice {
    /// `num` dice of one face: they total `num`.
    fn from(num: i32) -> (dice: Self) {
        Dice::new(num, 1)
    }
}

impl FromSpecImpl<i32> for Dice {
    open spec fn obeys_from_spec() -> bool {
        true
    }

    open spec fn from_spec(num: i32) -> Self {
        Dice { rolls: num, faces: 1 }
    }
}

impl From<&str> for Dice {
    /// Reads dice notation leniently.
    fn from(dice: &str) -> (r: Self) {
        Dice::parse_lenient(dice)
    }
}

impl FromSpecImpl<&str> for Dice {
    open spec fn obeys_from_spec() -> bool {
        true
    }

    open spec fn from_spec(dice: &str) -> Self {
        lenient_dice(dice@)
    }
}

impl From<String> for Dice {
    /// Reads dice notation leniently.
    fn from(dice: String) -> (r: Self) {
        Dice::parse_lenient(dice.as_str())
    }
}

impl FromSpecImpl<String> for Dice {
    open spec fn obeys_from_spec() -> bool {
        true
    }

    open spec fn from_spec(dice: String) -> Self {
        lenient_dice(dice@)
    }
}

} // verus!
