use passgen::alphabet::build_charset;
use passgen::record::{saved_line, DEFAULT_FILE_NAME};
use passgen::request::{
    same_text, GeneratedSecret, GenerationRequest, SecretKind, DEFAULT_PASSWORD_LENGTH,
    DEFAULT_TOKEN_LENGTH,
};
use passgen::strength::evaluate;

#[test]
fn defaults() {
    assert_eq!(DEFAULT_PASSWORD_LENGTH, 16);
    assert_eq!(DEFAULT_TOKEN_LENGTH, 32);
    assert_eq!(DEFAULT_FILE_NAME, "passwords.txt");
}

#[test]
fn kinds_are_chosen_by_name() {
    assert_eq!(SecretKind::Password.label(), "Password");
    assert_eq!(SecretKind::Token.label(), "Token");
    assert_eq!(SecretKind::from_choice("Password"), Some(SecretKind::Password));
    assert_eq!(SecretKind::from_choice("Token"), Some(SecretKind::Token));
    assert_eq!(SecretKind::from_choice("password"), None);
    assert_eq!(SecretKind::from_choice("Token "), None);
    assert_eq!(SecretKind::from_choice(""), None);
}

#[test]
fn same_text_compares_characters() {
    assert!(same_text("", ""));
    assert!(same_text("abc", "abc"));
    assert!(!same_text("abc", "abd"));
    assert!(!same_text("abc", "ab"));
    assert!(!same_text("ab", "abc"));
    assert!(same_text("é€", "é€"));
}

#[test]
fn request_builders_fill_the_fields() {
    let p: GenerationRequest = GenerationRequest::password(12, true, false, true);
    assert_eq!(
        p,
        GenerationRequest {
            kind: SecretKind::Password,
            length: 12,
            include_symbols: true,
            include_digits: false,
            include_uppercase: true,
        }
    );
    let t: GenerationRequest = GenerationRequest::token(32);
    assert_eq!(
        t,
        GenerationRequest {
            kind: SecretKind::Token,
            length: 32,
            include_symbols: false,
            include_digits: false,
            include_uppercase: false,
        }
    );
}

#[test]
fn password_of_twelve_with_every_class() {
    let charset: String = build_charset(true, true, true);
    for _round in 0..200 {
        let g: GeneratedSecret = GenerationRequest::password(12, true, true, true).generate();
        assert_eq!(g.text.chars().count(), 12);
        assert!(g.text.chars().all(|c| charset.contains(c)));
        let strength = g.strength.unwrap();
        assert_eq!(strength, evaluate(g.text.as_str()));
        assert!(strength.length_ok);
        let every_class: bool = g.text.chars().any(|c| c.is_ascii_uppercase())
            && g.text.chars().any(|c| c.is_ascii_digit())
            && g.text.chars().any(|c| !c.is_ascii_alphanumeric());
        assert_eq!(strength.score() == 4, every_class);
        assert!(strength.score() >= 1);
    }
}

#[test]
fn strength_of_a_password_follows_its_request() {
    for bits in 0u8..8u8 {
        let (s, d, u): (bool, bool, bool) = (bits & 1 != 0, bits & 2 != 0, bits & 4 != 0);
        for length in 0usize..30usize {
            let g: GeneratedSecret = GenerationRequest::password(length, s, d, u).generate();
            let strength = g.strength.unwrap();
            assert_eq!(strength.length_ok, length >= 12);
            assert!(!strength.has_symbol || s);
            assert!(!strength.has_digit || d);
            assert!(!strength.has_upper || u);
        }
    }
}

#[test]
fn token_comes_without_strength() {
    let g: GeneratedSecret = GenerationRequest::token(32).generate();
    assert_eq!(g.text.chars().count(), 32);
    assert!(g.text.chars().all(|c| c.is_ascii_alphanumeric()));
    assert_eq!(g.strength, None);
    let empty: GeneratedSecret = GenerationRequest::token(0).generate();
    assert_eq!(empty.text, "");
    assert_eq!(empty.strength, None);
}

#[test]
fn token_ignores_the_three_choices() {
    let request: GenerationRequest = GenerationRequest {
        kind: SecretKind::Token,
        length: 3000,
        include_symbols: true,
        include_digits: false,
        include_uppercase: false,
    };
    let g: GeneratedSecret = request.generate();
    assert!(g.text.chars().all(|c| c.is_ascii_alphanumeric()));
    assert!(g.text.chars().any(|c| c.is_ascii_digit()));
    assert!(g.text.chars().any(|c| c.is_ascii_uppercase()));
}

#[test]
fn token_never_holds_a_symbol() {
    let g: GeneratedSecret = GenerationRequest::token(5000).generate();
    assert!(!evaluate(g.text.as_str()).has_symbol);
}

#[test]
fn saved_line_ends_with_a_line_feed() {
    assert_eq!(saved_line("abc"), "abc\n");
    assert_eq!(saved_line(""), "\n");
    assert_eq!(saved_line("Ab3!Ab3!Ab3!"), "Ab3!Ab3!Ab3!\n");
}

#[test]
fn two_saved_lines_keep_their_order() {
    let mut content: String = String::new();
    content.push_str(saved_line("first").as_str());
    content.push_str(saved_line("second").as_str());
    assert_eq!(content, "first\nsecond\n");
    let lines: Vec<&str> = content.lines().collect();
    assert_eq!(lines, vec!["first", "second"]);
}

#[test]
fn generated_secrets_hold_no_line_feed() {
    let p: GeneratedSecret = GenerationRequest::password(5000, true, true, true).generate();
    assert!(!p.text.contains('\n'));
    let t: GeneratedSecret = GenerationRequest::token(5000).generate();
    assert!(!t.text.contains('\n'));
}
