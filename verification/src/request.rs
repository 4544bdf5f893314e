//! A request for one secret, and what comes of it.

use vstd::prelude::*;
use crate::alphabet::{
    charset_of, lemma_charset_members, lemma_excluded_classes, lemma_token_alphabet,
    token_alphabet,
};
use crate::classes::{alphanumeric_ascii, digit, symbol, uppercase};
use crate::generator::{
    alphanumeric, chars_of, create_password, drawn_from, generate_token,
};
use crate::strength::{evaluate, strength_of, Strength};

verus! {

/// The length offered for a password when the user names none.
pub const DEFAULT_PASSWORD_LENGTH: usize = 16;

/// The length offered for a token when the user names none.
pub const DEFAULT_TOKEN_LENGTH: usize = 32;

/// The two kinds of secret.
#[derive(Clone, Copy, Debug, PartialEq, Eq, Structural)]
pub enum SecretKind {
    /// Lowercase letters, and the symbols, digits and uppercase letters that
    /// the request includes.
    Password,
    /// ASCII letters and digits, always all 62.
    Token,
}

/// What the user asked for. For a token only the length matters.
#[derive(Clone, Copy, Debug, PartialEq, Eq, Structural)]
pub struct GenerationRequest {
    pub kind: SecretKind,
    pub length: usize,
    pub include_symbols: bool,
    pub include_digits: bool,
    pub include_uppercase: bool,
}

/// A generated secret. A password comes with its strength, a token without.
#[derive(Debug)]
pub struct GeneratedSecret {
    pub text: String,
    pub strength: Option<Strength>,
}

impl SecretKind {
    /// The name under which the kind is offered for choice.
    pub open spec fn name(self) -> Seq<char> {
        match self {
            SecretKind::Password => "Password"@,
            SecretKind::Token => "Token"@,
        }
    }

    /// The kind that a choice names, if it names one.
    pub open spec fn named_by(choice: Seq<char>) -> Option<SecretKind> {
        if choice == SecretKind::Password.name() {
            Some(SecretKind::Password)
        } else if choice == SecretKind::Token.name() {
            Some(SecretKind::Token)
        } else {
            None
        }
    }

    /// The name under which the kind is offered for choice.
    pub fn label(&self) -> (r: &'static str)
        ensures
            r@ == self.name(),
    {
        match self {
            SecretKind::Password => "Password",
            SecretKind::Token => "Token",
        }
    }

    /// The kind that the user chose: `Password` or `Token` by its exact
    /// name, and nothing for any other text.
    pub fn from_choice(choice: &str) -> (r: Option<SecretKind>)
        ensures
            r == SecretKind::named_by(choice@),
    {
        if same_text(choice, "Password") {
            Some(SecretKind::Password)
        } else if same_text(choice, "Token") {
            Some(SecretKind::Token)
        } else {
            None
        }
    }
}

/// Tells whether two texts hold the same characters.
pub fn same_text(a: &str, b: &str) -> (r: bool)
    ensures
        r == (a@ == b@),
{
    let x = chars_of(a);
    let y = chars_of(b);
    if x.len() != y.len() {
        return false;
    }
    let mut k: usize = 0;
    while k < x.len()
        invariant
            k <= x.len(),
            x.len() == y.len(),
            x@ == a@,
            y@ == b@,
            forall|i: int| 0 <= i < k ==> x@[i] == y@[i],
        decreases x.len() - k,
    {
        if x[k] != y[k] {
            return false;
        }
        k = k + 1;
    }
    assert(a@ =~= b@);
    true
}

impl GenerationRequest {
    /// The characters that the requested secret is drawn from.
    pub open spec fn alphabet(self) -> Seq<char> {
        match self.kind {
            SecretKind::Password => charset_of(
                self.include_symbols,
                self.include_digits,
                self.include_uppercase,
            ),
            SecretKind::Token => token_alphabet(),
        }
    }

    /// A request for a password.
    pub fn password(
        length: usize,
        include_symbols: bool,
        include_digits: bool,
        include_uppercase: bool,
    ) -> (r: GenerationRequest)
        ensures
            r == (GenerationRequest {
                kind: SecretKind::Password,
                length,
                include_symbols,
                include_digits,
                include_uppercase,
            }),
    {
        GenerationRequest {
            kind: SecretKind::Password,
            length,
            include_symbols,
            include_digits,
            include_uppercase,
        }
    }

    /// A request for a token. The three choices are set to `false`: a token
    /// has none.
    pub fn token(length: usize) -> (r: GenerationRequest)
        ensures
            r == (GenerationRequest {
                kind: SecretKind::Token,
                length,
                include_symbols: false,
                include_digits: false,
                include_uppercase: false,
            }),
    {
        GenerationRequest {
            kind: SecretKind::Token,
            length,
            include_symbols: false,
            include_digits: false,
            include_uppercase: false,
        }
    }

    /// Generates the secret: `length` characters drawn from the request's
    /// alphabet, and for a password its strength. The strength is advice: it
    /// keeps no secret from being generated.
    pub fn generate(&self) -> (r: GeneratedSecret)
        ensures
            r.text@.len() == self.length,
            drawn_from(r.text@, self.alphabet()),
            r.strength == match self.kind {
                SecretKind::Password => Some(strength_of(r.text@)),
                SecretKind::Token => None,
            },
    {
        match self.kind {
            SecretKind::Password => {
                let text = create_password(
                    self.length,
                    self.include_symbols,
                    self.include_digits,
                    self.include_uppercase,
                );
                let strength = evaluate(text.as_str());
                GeneratedSecret { text, strength: Some(strength) }
            },
            SecretKind::Token => {
                let text = generate_token(self.length);
                proof {
                    lemma_token_alphabet();
                }
                GeneratedSecret { text, strength: None }
            },
        }
    }
}

/// The strength of a password follows its request: it holds a symbol, a
/// digit or an uppercase letter only if that class was included. The
/// converse fails: a class that was included need not occur.
pub proof fn lemma_password_strength(
    secret: Seq<char>,
    include_symbols: bool,
    include_digits: bool,
    include_uppercase: bool,
)
    requires
        drawn_from(secret, charset_of(include_symbols, include_digits, include_uppercase)),
    ensures
        strength_of(secret).has_symbol ==> include_symbols,
        strength_of(secret).has_digit ==> include_digits,
        strength_of(secret).has_upper ==> include_uppercase,
{
    assert forall|k: int| 0 <= k < secret.len() implies {
        &&& symbol(#[trigger] secret[k]) ==> include_symbols
        &&& digit(secret[k]) ==> include_digits
        &&& uppercase(secret[k]) ==> include_uppercase
    } by {
        lemma_excluded_classes(include_symbols, include_digits, include_uppercase, secret[k]);
    }
}

/// A token never holds a symbol.
pub proof fn lemma_token_strength(token: Seq<char>)
    requires
        alphanumeric(token),
    ensures
        !strength_of(token).has_symbol,
{
    assert forall|k: int| 0 <= k < token.len() implies !symbol(
        #[trigger] token[k],
    ) by {
        assert(alphanumeric_ascii(token[k]));
    }
}

} // verus!
