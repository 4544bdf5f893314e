//! Generation of passwords and tokens.
//!
//! Drawing and building are kept apart: the functions that draw say what
//! holds of every draw, and the functions that build a secret from what was
//! drawn say exactly what they return.

use vstd::prelude::*;
use crate::alphabet::{build_charset, charset_of, lemma_charset_members};
use crate::classes::alphanumeric_ascii;
use crate::random::{alphanumeric_byte, uniform_index};

verus! {

/// `String::push` appends one character to the end of the string.
pub assume_specification[ std::string::String::push ](s: &mut String, c: char)
    ensures
        final(s)@ == old(s)@.push(c),
;

/// Why no secret was generated.
#[derive(Clone, Copy, Debug, PartialEq, Eq, Structural)]
pub enum GenerationError {
    /// The character set holds no character to draw.
    EmptyCharset,
}

/// Every index is a position in a character set of `size` characters.
pub open spec fn indices_within(indices: Seq<usize>, size: nat) -> bool {
    forall|k: int| 0 <= k < indices.len() ==> #[trigger] indices[k] < size
}

/// The characters of `charset` at the positions `indices`, in the order of
/// the indices.
pub open spec fn picked(charset: Seq<char>, indices: Seq<usize>) -> Seq<char> {
    Seq::new(indices.len(), |k: int| charset[indices[k] as int])
}

/// The characters that the bytes stand for, one for one.
pub open spec fn chars_of_bytes(bytes: Seq<u8>) -> Seq<char> {
    Seq::new(bytes.len(), |k: int| bytes[k] as char)
}

/// Every character of `s` is in `charset`.
pub open spec fn drawn_from(s: Seq<char>, charset: Seq<char>) -> bool {
    forall|k: int| 0 <= k < s.len() ==> charset.contains(#[trigger] s[k])
}

/// Every character of `s` is an ASCII letter or digit.
pub open spec fn alphanumeric(s: Seq<char>) -> bool {
    forall|k: int| 0 <= k < s.len() ==> alphanumeric_ascii(#[trigger] s[k])
}

/// Every byte is an ASCII letter or digit.
pub open spec fn alphanumeric_bytes(bytes: Seq<u8>) -> bool {
    forall|k: int| 0 <= k < bytes.len() ==> alphanumeric_ascii(#[trigger] bytes[k] as char)
}

/// The characters of a string, one by one.
pub fn chars_of(s: &str) -> (r: Vec<char>)
    ensures
        r@ == s@,
{
    let mut r: Vec<char> = Vec::new();
    for c in it: s.chars()
        invariant
            it.seq() == s@,
            r@ == s@.take(it.index()),
    {
        proof {
            assert(s@.take(it.index() + 1) =~= s@.take(it.index()).push(c));
        }
        r.push(c);
    }
    assert(s@.take(s@.len() as int) =~= s@);
    r
}

/// Builds the secret that a draw of indices stands for: the character of
/// `charset` at each index, in order.
pub fn pick_chars(charset: &Vec<char>, indices: &Vec<usize>) -> (r: String)
    requires
        indices_within(indices@, charset@.len()),
    ensures
        r@ == picked(charset@, indices@),
{
    let mut r = String::new();
    let mut k: usize = 0;
    while k < indices.len()
        invariant
            k <= indices.len(),
            indices_within(indices@, charset@.len()),
            r@ == picked(charset@, indices@.take(k as int)),
        decreases indices.len() - k,
    {
        let i: usize = indices[k];
        proof {
            assert(picked(charset@, indices@.take(k + 1)) =~= picked(
                charset@,
                indices@.take(k as int),
            ).push(charset@[i as int]));
        }
        r.push(charset[i]);
        k = k + 1;
    }
    assert(indices@.take(indices@.len() as int) =~= indices@);
    r
}

/// Builds the token that a draw of bytes stands for: each byte as a
/// character.
pub fn token_from_bytes(bytes: &Vec<u8>) -> (r: String)
    ensures
        r@ == chars_of_bytes(bytes@),
{
    let mut r = String::new();
    let mut k: usize = 0;
    while k < bytes.len()
        invariant
            k <= bytes.len(),
            r@ == chars_of_bytes(bytes@.take(k as int)),
        decreases bytes.len() - k,
    {
        let b: u8 = bytes[k];
        proof {
            assert(chars_of_bytes(bytes@.take(k + 1)) =~= chars_of_bytes(
                bytes@.take(k as int),
            ).push(b as char));
        }
        r.push(b as char);
        k = k + 1;
    }
    assert(bytes@.take(bytes@.len() as int) =~= bytes@);
    r
}

/// Draws `count` indices, each from 0 to `high`, independently and each value
/// with the same chance.
pub fn draw_indices(high: usize, count: usize) -> (r: Vec<usize>)
    ensures
        r@.len() == count,
        indices_within(r@, high as nat + 1),
{
    let mut r: Vec<usize> = Vec::new();
    let mut k: usize = 0;
    while k < count
        invariant
            k <= count,
            r@.len() == k,
            indices_within(r@, high as nat + 1),
        decreases count - k,
    {
        let i: usize = uniform_index(high);
        r.push(i);
        k = k + 1;
    }
    r
}

/// Draws `count` bytes, each an ASCII letter or digit, independently and each
/// of the 62 with the same chance.
pub fn draw_alphanumeric(count: usize) -> (r: Vec<u8>)
    ensures
        r@.len() == count,
        alphanumeric_bytes(r@),
{
    let mut r: Vec<u8> = Vec::new();
    let mut k: usize = 0;
    while k < count
        invariant
            k <= count,
            r@.len() == k,
            alphanumeric_bytes(r@),
        decreases count - k,
    {
        let b: u8 = alphanumeric_byte();
        r.push(b);
        k = k + 1;
    }
    r
}

/// The highest index to ask of the source of randomness for a character set
/// of `size` characters: the index of its last character, so that a draw
/// from 0 to it covers every position of the set and none beyond. An empty
/// set has no position and is refused.
pub fn index_bound(size: usize) -> (r: Result<usize, GenerationError>)
    ensures
        size == 0 ==> r == Err::<usize, GenerationError>(GenerationError::EmptyCharset),
        size > 0 ==> r == Ok::<usize, GenerationError>((size - 1) as usize),
{
    if size == 0 {
        Err(GenerationError::EmptyCharset)
    } else {
        Ok(size - 1)
    }
}

/// In a character set that holds no character twice, every character stands
/// at exactly one index: a draw that gives each index the same chance gives
/// each character the same chance.
pub proof fn lemma_one_index_per_character(charset: Seq<char>, c: char)
    requires
        charset.no_duplicates(),
        charset.contains(c),
    ensures
        exists|i: int|
            #![trigger charset[i]]
            0 <= i < charset.len() && charset[i] == c && forall|j: int|
                0 <= j < charset.len() && #[trigger] charset[j] == c ==> j == i,
{
    let i = choose|i: int| 0 <= i < charset.len() && charset[i] == c;
    assert(charset[i] == c);
    assert forall|j: int| 0 <= j < charset.len() && #[trigger] charset[j] == c implies j
        == i by {}
}

/// Generates a secret of `length` characters, each drawn from `charset`
/// independently and each position of the set with the same chance: the
/// indices are drawn from 0 to `index_bound` of the number of characters.
///
/// An empty character set is refused before anything is drawn, whatever the
/// length. With a character set that is not empty every length succeeds, and
/// length 0 gives the empty string.
pub fn sample_from(charset: &str, length: usize) -> (r: Result<String, GenerationError>)
    ensures
        charset@.len() == 0 ==> r == Err::<String, GenerationError>(GenerationError::EmptyCharset),
        charset@.len() > 0 ==> r is Ok,
        r matches Ok(secret) ==> secret@.len() == length && drawn_from(secret@, charset@),
{
    let chars = chars_of(charset);
    let high: usize = match index_bound(chars.len()) {
        Ok(high) => high,
        Err(e) => {
            return Err(e);
        },
    };
    let indices = draw_indices(high, length);
    let secret = pick_chars(&chars, &indices);
    proof {
        assert forall|k: int| 0 <= k < secret@.len() implies charset@.contains(
            #[trigger] secret@[k],
        ) by {
            assert(secret@[k] == charset@[indices@[k] as int]);
        }
    }
    Ok(secret)
}

/// Creates a password of `length` characters, each drawn from the character
/// set that the three choices give. Length 0 gives the empty string.
///
/// That a class is included does not mean that it occurs: every character is
/// drawn independently from the whole set.
pub fn create_password(
    length: usize,
    include_symbols: bool,
    include_digits: bool,
    include_uppercase: bool,
) -> (r: String)
    ensures
        r@.len() == length,
        drawn_from(r@, charset_of(include_symbols, include_digits, include_uppercase)),
{
    let charset = build_charset(include_symbols, include_digits, include_uppercase);
    proof {
        lemma_charset_members(include_symbols, include_digits, include_uppercase);
    }
    let r = sample_from(charset.as_str(), length);
    r.unwrap()
}

/// Generates a token of `length` characters, each drawn independently from
/// the 62 ASCII letters and digits. Length 0 gives the empty string.
pub fn generate_token(length: usize) -> (r: String)
    ensures
        r@.len() == length,
        alphanumeric(r@),
{
    let bytes = draw_alphanumeric(length);
    let r = token_from_bytes(&bytes);
    proof {
        assert forall|k: int| 0 <= k < r@.len() implies alphanumeric_ascii(#[trigger] r@[k]) by {
            assert(r@[k] == bytes@[k] as char);
        }
    }
    r
}

} // verus!
