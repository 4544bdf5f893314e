//! Character classes used by the strength heuristic.
//!
//! A digit is one of the ten decimal digits `0` to `9`. ASCII letters are
//! classified here by range. Beyond ASCII the Unicode tables of the standard
//! library say what a letter is and which letters are uppercase, through
//! `char::is_alphabetic` and `char::is_uppercase`.

use vstd::prelude::*;

verus! {

/// The value of `char::is_uppercase` on `c`: whether `c` has the Unicode
/// property Uppercase.
pub uninterp spec fn unicode_uppercase(c: char) -> bool;

/// The value of `char::is_alphabetic` on `c`: whether `c` has the Unicode
/// property Alphabetic.
pub uninterp spec fn unicode_alphabetic(c: char) -> bool;

/// `char::is_uppercase` depends on the character alone; its result is named
/// and nothing more is claimed of it.
pub assume_specification[ char::is_uppercase ](c: char) -> (r: bool)
    ensures
        r == unicode_uppercase(c),
;

/// `char::is_alphabetic` depends on the character alone; its result is named
/// and nothing more is claimed of it.
pub assume_specification[ char::is_alphabetic ](c: char) -> (r: bool)
    ensures
        r == unicode_alphabetic(c),
;

/// `c` is one of the 128 ASCII characters.
pub open spec fn ascii(c: char) -> bool {
    '\0' <= c && c <= '\u{7f}'
}

/// `c` is one of `a` to `z`.
pub open spec fn lowercase_ascii(c: char) -> bool {
    'a' <= c && c <= 'z'
}

/// `c` is one of `A` to `Z`.
pub open spec fn uppercase_ascii(c: char) -> bool {
    'A' <= c && c <= 'Z'
}

/// `c` is one of `0` to `9`.
pub open spec fn digit_ascii(c: char) -> bool {
    '0' <= c && c <= '9'
}

/// `c` is an ASCII letter or an ASCII digit: one of the 62 characters a token
/// is made of.
pub open spec fn alphanumeric_ascii(c: char) -> bool {
    lowercase_ascii(c) || uppercase_ascii(c) || digit_ascii(c)
}

/// `c` is an uppercase letter.
pub open spec fn uppercase(c: char) -> bool {
    if ascii(c) {
        uppercase_ascii(c)
    } else {
        unicode_uppercase(c)
    }
}

/// `c` is a letter.
pub open spec fn letter(c: char) -> bool {
    if ascii(c) {
        lowercase_ascii(c) || uppercase_ascii(c)
    } else {
        unicode_alphabetic(c)
    }
}

/// `c` is a decimal digit: one of `0` to `9`. No other character is a digit,
/// whatever number it may stand for: not a fraction, not a circled or a Roman
/// numeral, not a digit of another script.
pub open spec fn digit(c: char) -> bool {
    digit_ascii(c)
}

/// `c` is neither a letter nor a digit.
pub open spec fn symbol(c: char) -> bool {
    !letter(c) && !digit(c)
}

/// Tells whether `c` is one of the 128 ASCII characters.
pub fn is_ascii(c: char) -> (r: bool)
    ensures
        r == ascii(c),
{
    c <= '\x7f'
}

/// Tells whether `c` is an uppercase letter.
pub fn is_upper(c: char) -> (r: bool)
    ensures
        r == uppercase(c),
{
    if is_ascii(c) {
        'A' <= c && c <= 'Z'
    } else {
        c.is_uppercase()
    }
}

/// Tells whether `c` is a letter.
pub fn is_letter(c: char) -> (r: bool)
    ensures
        r == letter(c),
{
    if is_ascii(c) {
        ('a' <= c && c <= 'z') || ('A' <= c && c <= 'Z')
    } else {
        c.is_alphabetic()
    }
}

/// Tells whether `c` is a decimal digit.
pub fn is_digit(c: char) -> (r: bool)
    ensures
        r == digit(c),
{
    '0' <= c && c <= '9'
}

/// Tells whether `c` is neither a letter nor a digit.
pub fn is_symbol(c: char) -> (r: bool)
    ensures
        r == symbol(c),
{
    !is_letter(c) && !is_digit(c)
}

} // verus!
