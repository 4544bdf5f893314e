//! The alphabets that secrets are drawn from.

use vstd::prelude::*;
use vstd::string::StringExecFns;
use crate::classes::{
    alphanumeric_ascii, ascii, digit, digit_ascii, lowercase_ascii, symbol, uppercase,
    uppercase_ascii,
};

verus! {

/// The 26 lowercase letters: part of every password's character set.
pub open spec fn lowercase_letters() -> Seq<char> {
    "abcdefghijklmnopqrstuvwxyz"@
}

/// The 30 punctuation characters that a password may include.
pub open spec fn symbols() -> Seq<char> {
    "!@#$%^&*()-_=+[]{}|;:',.<>?/`~"@
}

/// The 10 digits.
pub open spec fn digits() -> Seq<char> {
    "0123456789"@
}

/// The 26 uppercase letters.
pub open spec fn uppercase_letters() -> Seq<char> {
    "ABCDEFGHIJKLMNOPQRSTUVWXYZ"@
}

/// `part` if it was asked for, nothing if not.
pub open spec fn optional(wanted: bool, part: Seq<char>) -> Seq<char> {
    if wanted {
        part
    } else {
        Seq::empty()
    }
}

/// The character set of a password: the lowercase letters, then the symbols,
/// the digits and the uppercase letters, each only if included.
pub open spec fn charset_of(
    include_symbols: bool,
    include_digits: bool,
    include_uppercase: bool,
) -> Seq<char> {
    lowercase_letters() + optional(include_symbols, symbols()) + optional(
        include_digits,
        digits(),
    ) + optional(include_uppercase, uppercase_letters())
}

/// Builds the character set of a password.
pub fn build_charset(include_symbols: bool, include_digits: bool, include_uppercase: bool) -> (r:
    String)
    ensures
        r@ == charset_of(include_symbols, include_digits, include_uppercase),
{
    let mut charset = String::from_str("abcdefghijklmnopqrstuvwxyz");
    if include_symbols {
        charset.append("!@#$%^&*()-_=+[]{}|;:',.<>?/`~");
    }
    if include_digits {
        charset.append("0123456789");
    }
    if include_uppercase {
        charset.append("ABCDEFGHIJKLMNOPQRSTUVWXYZ");
    }
    proof {
        let low = lowercase_letters();
        let sym = optional(include_symbols, symbols());
        let dig = optional(include_digits, digits());
        assert(low + Seq::<char>::empty() =~= low);
        assert(low + sym + Seq::<char>::empty() =~= low + sym);
        assert(low + sym + dig + Seq::<char>::empty() =~= low + sym + dig);
    }
    charset
}

/// What each alphabet holds: the lowercase letters are exactly `a` to `z`,
/// the digits exactly `0` to `9`, the uppercase letters exactly `A` to `Z`,
/// and every symbol is an ASCII character that is neither a letter nor a
/// digit.
pub proof fn lemma_alphabets()
    ensures
        lowercase_letters().len() == 26,
        symbols().len() == 30,
        digits().len() == 10,
        uppercase_letters().len() == 26,
        forall|c: char| #[trigger] lowercase_letters().contains(c) <==> lowercase_ascii(c),
        forall|c: char| #[trigger] digits().contains(c) <==> digit_ascii(c),
        forall|c: char| #[trigger] uppercase_letters().contains(c) <==> uppercase_ascii(c),
        forall|c: char| #[trigger]
            symbols().contains(c) ==> ascii(c) && !alphanumeric_ascii(c),
{
    reveal_strlit("abcdefghijklmnopqrstuvwxyz");
    reveal_strlit("!@#$%^&*()-_=+[]{}|;:',.<>?/`~");
    reveal_strlit("0123456789");
    reveal_strlit("ABCDEFGHIJKLMNOPQRSTUVWXYZ");
    let low = lowercase_letters();
    let dig = digits();
    let up = uppercase_letters();
    let sym = symbols();
    assert forall|c: char| #[trigger] low.contains(c) <==> lowercase_ascii(c) by {
        if low.contains(c) {
            let i = choose|i: int| 0 <= i < low.len() && low[i] == c;
            assert(lowercase_ascii(low[i]));
        }
        if lowercase_ascii(c) {
            let i = c as int - 'a' as int;
            assert(low[i] == c);
        }
    }
    assert forall|c: char| #[trigger] dig.contains(c) <==> digit_ascii(c) by {
        if dig.contains(c) {
            let i = choose|i: int| 0 <= i < dig.len() && dig[i] == c;
            assert(digit_ascii(dig[i]));
        }
        if digit_ascii(c) {
            let i = c as int - '0' as int;
            assert(dig[i] == c);
        }
    }
    assert forall|c: char| #[trigger] up.contains(c) <==> uppercase_ascii(c) by {
        if up.contains(c) {
            let i = choose|i: int| 0 <= i < up.len() && up[i] == c;
            assert(uppercase_ascii(up[i]));
        }
        if uppercase_ascii(c) {
            let i = c as int - 'A' as int;
            assert(up[i] == c);
        }
    }
    assert forall|c: char| #[trigger] sym.contains(c) implies ascii(c) && !alphanumeric_ascii(
        c,
    ) by {
        let i = choose|i: int| 0 <= i < sym.len() && sym[i] == c;
        assert(ascii(sym[i]) && !alphanumeric_ascii(sym[i]));
    }
}

/// The size of a password's character set: 26, and 30, 10 and 26 more for
/// the symbols, the digits and the uppercase letters that are included.
pub open spec fn charset_size(
    include_symbols: bool,
    include_digits: bool,
    include_uppercase: bool,
) -> nat {
    26 + optional_size(include_symbols, 30) + optional_size(include_digits, 10) + optional_size(
        include_uppercase,
        26,
    )
}

/// `size` if the part was asked for, 0 if not.
pub open spec fn optional_size(wanted: bool, size: nat) -> nat {
    if wanted {
        size
    } else {
        0
    }
}

/// A character is in a password's character set exactly if it is a lowercase
/// letter, or a symbol, a digit or an uppercase letter that is included. The
/// set is never empty and holds ASCII characters only.
pub proof fn lemma_charset_members(
    include_symbols: bool,
    include_digits: bool,
    include_uppercase: bool,
)
    ensures
        charset_of(include_symbols, include_digits, include_uppercase).len() == charset_size(
            include_symbols,
            include_digits,
            include_uppercase,
        ),
        forall|c: char| #[trigger]
            charset_of(include_symbols, include_digits, include_uppercase).contains(c) <==> {
                ||| lowercase_ascii(c)
                ||| include_symbols && symbols().contains(c)
                ||| include_digits && digit_ascii(c)
                ||| include_uppercase && uppercase_ascii(c)
            },
        forall|c: char| #[trigger]
            charset_of(include_symbols, include_digits, include_uppercase).contains(c) ==> ascii(
                c,
            ),
{
    lemma_alphabets();
    let low = lowercase_letters();
    let sym = optional(include_symbols, symbols());
    let dig = optional(include_digits, digits());
    let up = optional(include_uppercase, uppercase_letters());
    let all = charset_of(include_symbols, include_digits, include_uppercase);
    assert forall|c: char| #[trigger] all.contains(c) <==> (low.contains(c) || sym.contains(c)
        || dig.contains(c) || up.contains(c)) by {
        lemma_concat_contains(low, sym, c);
        lemma_concat_contains(low + sym, dig, c);
        lemma_concat_contains(low + sym + dig, up, c);
    }
}

/// A character is in `a + b` exactly if it is in `a` or in `b`.
proof fn lemma_concat_contains(a: Seq<char>, b: Seq<char>, c: char)
    ensures
        (a + b).contains(c) <==> a.contains(c) || b.contains(c),
{
    let ab = a + b;
    if ab.contains(c) {
        let i = choose|i: int| 0 <= i < ab.len() && ab[i] == c;
        if i < a.len() {
            assert(a[i] == c);
        } else {
            assert(b[i - a.len()] == c);
        }
    }
    if a.contains(c) {
        let i = choose|i: int| 0 <= i < a.len() && a[i] == c;
        assert(ab[i] == c);
    }
    if b.contains(c) {
        let i = choose|i: int| 0 <= i < b.len() && b[i] == c;
        assert(ab[a.len() + i] == c);
    }
}

/// A class that was not included does not occur in the character set: only
/// a set with symbols holds a symbol, only one with digits a digit, and only
/// one with uppercase letters an uppercase letter.
pub proof fn lemma_excluded_classes(
    include_symbols: bool,
    include_digits: bool,
    include_uppercase: bool,
    c: char,
)
    requires
        charset_of(include_symbols, include_digits, include_uppercase).contains(c),
    ensures
        symbol(c) ==> include_symbols,
        digit(c) ==> include_digits,
        uppercase(c) ==> include_uppercase,
{
    lemma_alphabets();
    lemma_charset_members(include_symbols, include_digits, include_uppercase);
}

/// No alphabet holds a character twice, and no two of them share one.
proof fn lemma_alphabets_distinct()
    ensures
        lowercase_letters().no_duplicates(),
        symbols().no_duplicates(),
        digits().no_duplicates(),
        uppercase_letters().no_duplicates(),
{
    reveal_strlit("abcdefghijklmnopqrstuvwxyz");
    reveal_strlit("!@#$%^&*()-_=+[]{}|;:',.<>?/`~");
    reveal_strlit("0123456789");
    reveal_strlit("ABCDEFGHIJKLMNOPQRSTUVWXYZ");
    let low = lowercase_letters();
    let dig = digits();
    let up = uppercase_letters();
    let sym = symbols();
    assert forall|i: int| 0 <= i < low.len() implies #[trigger] low[i] as int == 'a' as int
        + i by {}
    assert forall|i: int| 0 <= i < dig.len() implies #[trigger] dig[i] as int == '0' as int
        + i by {}
    assert forall|i: int| 0 <= i < up.len() implies #[trigger] up[i] as int == 'A' as int + i by {}
    assert forall|i: int, j: int| 0 <= i < j < sym.len() implies #[trigger] sym[i]
        != #[trigger] sym[j] by {}
}

/// A password's character set holds no character twice: drawing each
/// position with the same chance draws each character with the same chance.
pub proof fn lemma_charset_distinct(
    include_symbols: bool,
    include_digits: bool,
    include_uppercase: bool,
)
    ensures
        charset_of(include_symbols, include_digits, include_uppercase).no_duplicates(),
{
    lemma_alphabets();
    lemma_alphabets_distinct();
    let low = lowercase_letters();
    let sym = optional(include_symbols, symbols());
    let dig = optional(include_digits, digits());
    let up = optional(include_uppercase, uppercase_letters());
    assert forall|c: char| #[trigger] (low + sym).contains(c) <==> low.contains(c)
        || sym.contains(c) by {
        lemma_concat_contains(low, sym, c);
    }
    assert forall|c: char| #[trigger] (low + sym + dig).contains(c) <==> (low + sym).contains(c)
        || dig.contains(c) by {
        lemma_concat_contains(low + sym, dig, c);
    }
    lemma_disjoint_concat(low, sym);
    lemma_disjoint_concat(low + sym, dig);
    lemma_disjoint_concat(low + sym + dig, up);
}

/// Two sequences without a repeated character and without a common one
/// give, one after the other, a sequence without a repeated character.
proof fn lemma_disjoint_concat(a: Seq<char>, b: Seq<char>)
    requires
        a.no_duplicates(),
        b.no_duplicates(),
        forall|c: char| !(a.contains(c) && b.contains(c)),
    ensures
        (a + b).no_duplicates(),
{
    assert forall|i: int, j: int| 0 <= i < a.len() && 0 <= j < b.len() implies a[i] != b[j] by {
        if a[i] == b[j] {
            assert(a.contains(a[i]));
            assert(b.contains(b[j]));
        }
    }
    vstd::seq_lib::lemma_no_dup_in_concat(a, b);
}

/// The token alphabet holds no character twice.
pub proof fn lemma_token_alphabet_distinct()
    ensures
        token_alphabet().no_duplicates(),
{
    lemma_alphabets();
    lemma_alphabets_distinct();
    let up = uppercase_letters();
    let low = lowercase_letters();
    assert forall|c: char| #[trigger] (up + low).contains(c) <==> up.contains(c) || low.contains(
        c,
    ) by {
        lemma_concat_contains(up, low, c);
    }
    lemma_disjoint_concat(up, low);
    lemma_disjoint_concat(up + low, digits());
}

/// The 62 characters of a token: the uppercase letters, the lowercase
/// letters and the digits.
pub open spec fn token_alphabet() -> Seq<char> {
    uppercase_letters() + lowercase_letters() + digits()
}

/// The token alphabet holds 62 characters: exactly the ASCII letters and
/// digits.
pub proof fn lemma_token_alphabet()
    ensures
        token_alphabet().len() == 62,
        forall|c: char| #[trigger] token_alphabet().contains(c) <==> alphanumeric_ascii(c),
{
    lemma_alphabets();
    assert forall|c: char| #[trigger] token_alphabet().contains(c) <==> alphanumeric_ascii(
        c,
    ) by {
        lemma_concat_contains(uppercase_letters(), lowercase_letters(), c);
        lemma_concat_contains(uppercase_letters() + lowercase_letters(), digits(), c);
    }
}

} // verus!
