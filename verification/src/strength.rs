//! The strength heuristic: four yes/no criteria, one point each.

use vstd::prelude::*;
use crate::classes::{digit, is_digit, is_symbol, is_upper, symbol, uppercase};

verus! {

/// The number of characters from which a secret counts as long enough.
pub const MIN_LENGTH: usize = 12;

/// What the heuristic found in one secret.
#[derive(Clone, Copy, Debug, PartialEq, Eq, Structural)]
pub struct Strength {
    /// The secret has at least [`MIN_LENGTH`] characters.
    pub length_ok: bool,
    /// Some character is an uppercase letter.
    pub has_upper: bool,
    /// Some character is a decimal digit.
    pub has_digit: bool,
    /// Some character is neither a letter nor a digit.
    pub has_symbol: bool,
}

/// The five verdicts, weakest first.
#[derive(Clone, Copy, Debug, PartialEq, Eq, Structural)]
pub enum Verdict {
    VeryWeak,
    Weak,
    Medium,
    VeryGood,
    Excellent,
}

/// Some character of `s` is an uppercase letter.
pub open spec fn some_uppercase(s: Seq<char>) -> bool {
    exists|i: int| 0 <= i < s.len() && uppercase(#[trigger] s[i])
}

/// Some character of `s` is a digit.
pub open spec fn some_digit(s: Seq<char>) -> bool {
    exists|i: int| 0 <= i < s.len() && digit(#[trigger] s[i])
}

/// Some character of `s` is neither a letter nor a digit.
pub open spec fn some_symbol(s: Seq<char>) -> bool {
    exists|i: int| 0 <= i < s.len() && symbol(#[trigger] s[i])
}

/// The strength of the secret whose characters are `s`.
pub open spec fn strength_of(s: Seq<char>) -> Strength {
    Strength {
        length_ok: s.len() >= MIN_LENGTH,
        has_upper: some_uppercase(s),
        has_digit: some_digit(s),
        has_symbol: some_symbol(s),
    }
}

/// One point for a criterion that holds, none for one that does not.
pub open spec fn point(criterion: bool) -> nat {
    if criterion {
        1
    } else {
        0
    }
}

/// The verdict that goes with a score: one for each of 1 to 4, and the weakest
/// for every other number.
pub open spec fn verdict_of(score: nat) -> Verdict {
    if score == 4 {
        Verdict::Excellent
    } else if score == 3 {
        Verdict::VeryGood
    } else if score == 2 {
        Verdict::Medium
    } else if score == 1 {
        Verdict::Weak
    } else {
        Verdict::VeryWeak
    }
}

impl Strength {
    /// The number of criteria that hold.
    pub open spec fn points(self) -> nat {
        point(self.length_ok) + point(self.has_upper) + point(self.has_digit) + point(
            self.has_symbol,
        )
    }

    /// The score, from 0 to 4: the number of criteria that hold.
    pub fn score(&self) -> (r: u8)
        ensures
            r == self.points(),
            r <= 4,
    {
        let mut r: u8 = 0;
        if self.length_ok {
            r = r + 1;
        }
        if self.has_upper {
            r = r + 1;
        }
        if self.has_digit {
            r = r + 1;
        }
        if self.has_symbol {
            r = r + 1;
        }
        r
    }

    /// The verdict that goes with the score.
    pub fn verdict(&self) -> (r: Verdict)
        ensures
            r == verdict_of(self.points()),
    {
        Verdict::from_score(self.score())
    }
}

impl Verdict {
    /// The words shown for this verdict.
    pub open spec fn words(self) -> Seq<char> {
        match self {
            Verdict::Excellent => "Excellent"@,
            Verdict::VeryGood => "Very good"@,
            Verdict::Medium => "Medium"@,
            Verdict::Weak => "Weak"@,
            Verdict::VeryWeak => "Very weak"@,
        }
    }

    /// The verdict for a score. A number above 4, which no strength has,
    /// gets the weakest verdict, as 0 does.
    pub fn from_score(score: u8) -> (r: Verdict)
        ensures
            r == verdict_of(score as nat),
    {
        if score == 4 {
            Verdict::Excellent
        } else if score == 3 {
            Verdict::VeryGood
        } else if score == 2 {
            Verdict::Medium
        } else if score == 1 {
            Verdict::Weak
        } else {
            Verdict::VeryWeak
        }
    }

    /// The words shown for this verdict.
    pub fn label(&self) -> (r: &'static str)
        ensures
            r@ == self.words(),
    {
        match self {
            Verdict::Excellent => "Excellent",
            Verdict::VeryGood => "Very good",
            Verdict::Medium => "Medium",
            Verdict::Weak => "Weak",
            Verdict::VeryWeak => "Very weak",
        }
    }
}

/// The score is at most 4; it is 4 exactly if all four criteria hold, and 0
/// exactly if none does.
pub proof fn lemma_score(strength: Strength)
    ensures
        strength.points() <= 4,
        strength.points() == 4 <==> strength.length_ok && strength.has_upper
            && strength.has_digit && strength.has_symbol,
        strength.points() == 0 <==> !strength.length_ok && !strength.has_upper
            && !strength.has_digit && !strength.has_symbol,
{
}

/// Evaluates a secret: whether it has enough characters, and which of the
/// three classes (uppercase letters, decimal digits, symbols) occur in it. The result
/// depends on the characters alone.
pub fn evaluate(secret: &str) -> (r: Strength)
    ensures
        r == strength_of(secret@),
{
    let mut has_upper = false;
    let mut has_digit = false;
    let mut has_symbol = false;
    let mut counted: usize = 0;
    for c in it: secret.chars()
        invariant
            it.seq() == secret@,
            counted == if it.index() < MIN_LENGTH {
                it.index()
            } else {
                MIN_LENGTH as int
            },
            has_upper == some_uppercase(secret@.take(it.index())),
            has_digit == some_digit(secret@.take(it.index())),
            has_symbol == some_symbol(secret@.take(it.index())),
    {
        proof {
            let k = it.index();
            let before = secret@.take(k);
            let after = secret@.take(k + 1);
            assert(after.drop_last() =~= before);
            assert(after.last() == c);
            lemma_some_push(before, c);
            assert(before.push(c) =~= after);
        }
        has_upper = has_upper || is_upper(c);
        has_digit = has_digit || is_digit(c);
        has_symbol = has_symbol || is_symbol(c);
        if counted < MIN_LENGTH {
            counted = counted + 1;
        }
    }
    assert(secret@.take(secret@.len() as int) =~= secret@);
    Strength { length_ok: counted >= MIN_LENGTH, has_upper, has_digit, has_symbol }
}

/// A class occurs in `s` followed by `c` exactly if it occurs in `s` or `c`
/// is of it.
proof fn lemma_some_push(s: Seq<char>, c: char)
    ensures
        some_uppercase(s.push(c)) == (some_uppercase(s) || uppercase(c)),
        some_digit(s.push(c)) == (some_digit(s) || digit(c)),
        some_symbol(s.push(c)) == (some_symbol(s) || symbol(c)),
{
    let t = s.push(c);
    let n = s.len() as int;
    assert(t[n] == c);
    assert forall|i: int| 0 <= i < n implies t[i] == s[i] by {}
    if some_uppercase(s) {
        let i = choose|i: int| 0 <= i < s.len() && uppercase(#[trigger] s[i]);
        assert(uppercase(t[i]));
    }
    if some_digit(s) {
        let i = choose|i: int| 0 <= i < s.len() && digit(#[trigger] s[i]);
        assert(digit(t[i]));
    }
    if some_symbol(s) {
        let i = choose|i: int| 0 <= i < s.len() && symbol(#[trigger] s[i]);
        assert(symbol(t[i]));
    }
    if some_uppercase(t) {
        let i = choose|i: int| 0 <= i < t.len() && uppercase(#[trigger] t[i]);
        if i < n {
            assert(uppercase(s[i]));
        }
    }
    if some_digit(t) {
        let i = choose|i: int| 0 <= i < t.len() && digit(#[trigger] t[i]);
        if i < n {
            assert(digit(s[i]));
        }
    }
    if some_symbol(t) {
        let i = choose|i: int| 0 <= i < t.len() && symbol(#[trigger] t[i]);
        if i < n {
            assert(symbol(s[i]));
        }
    }
}

} // verus!
