//! The format in which secrets are kept: plain text, one secret per line.

use vstd::prelude::*;
use vstd::string::StringExecFns;
use crate::alphabet::{lemma_alphabets, lemma_charset_members, lemma_token_alphabet, symbols};
use crate::generator::drawn_from;
use crate::request::GenerationRequest;

verus! {

/// The file offered for saving when the user names none.
pub const DEFAULT_FILE_NAME: &'static str = "passwords.txt";

/// The line that keeps a secret: the secret, then a line feed.
pub open spec fn line_of(secret: Seq<char>) -> Seq<char> {
    secret.push('\n')
}

/// The text to append to the file for one secret: the secret followed by a
/// line feed, with no header and nothing else.
pub fn saved_line(secret: &str) -> (r: String)
    ensures
        r@ == line_of(secret@),
{
    let mut r = String::from_str(secret);
    r.push('\n');
    r
}

/// A generated secret holds no line feed, so each one that is saved takes
/// exactly one line.
pub proof fn lemma_single_line(request: GenerationRequest, secret: Seq<char>)
    requires
        drawn_from(secret, request.alphabet()),
    ensures
        !secret.contains('\n'),
        line_of(secret).last() == '\n',
        line_of(secret).drop_last() == secret,
{
    lemma_alphabets();
    lemma_charset_members(
        request.include_symbols,
        request.include_digits,
        request.include_uppercase,
    );
    lemma_token_alphabet();
    if secret.contains('\n') {
        let k = choose|k: int| 0 <= k < secret.len() && secret[k] == '\n';
        assert(request.alphabet().contains(secret[k]));
        reveal_strlit("!@#$%^&*()-_=+[]{}|;:',.<>?/`~");
        let sym = symbols();
        if sym.contains('\n') {
            let i = choose|i: int| 0 <= i < sym.len() && sym[i] == '\n';
            assert(sym[i] != '\n');
        }
    }
    assert(line_of(secret).drop_last() =~= secret);
}

} // verus!
