use passgen::alphabet::build_charset;
use passgen::generator::{
    chars_of, create_password, draw_alphanumeric, draw_indices, generate_token, index_bound,
    pick_chars, sample_from, token_from_bytes, GenerationError,
};

const LOWER: &str = "abcdefghijklmnopqrstuvwxyz";
const SYMBOLS: &str = "!@#$%^&*()-_=+[]{}|;:',.<>?/`~";
const DIGITS: &str = "0123456789";
const UPPER: &str = "ABCDEFGHIJKLMNOPQRSTUVWXYZ";

#[test]
fn charset_of_lowercase_only() {
    assert_eq!(build_charset(false, false, false), LOWER);
}

#[test]
fn charset_with_everything_is_in_order() {
    let expected: String = format!("{}{}{}{}", LOWER, SYMBOLS, DIGITS, UPPER);
    assert_eq!(build_charset(true, true, true), expected);
    assert_eq!(build_charset(true, true, true).chars().count(), 92);
}

#[test]
fn charset_for_each_single_choice() {
    assert_eq!(build_charset(true, false, false), format!("{}{}", LOWER, SYMBOLS));
    assert_eq!(build_charset(false, true, false), format!("{}{}", LOWER, DIGITS));
    assert_eq!(build_charset(false, false, true), format!("{}{}", LOWER, UPPER));
    assert_eq!(build_charset(true, false, true), format!("{}{}{}", LOWER, SYMBOLS, UPPER));
    assert_eq!(build_charset(false, true, true), format!("{}{}{}", LOWER, DIGITS, UPPER));
    assert_eq!(build_charset(true, true, false), format!("{}{}{}", LOWER, SYMBOLS, DIGITS));
}

#[test]
fn charset_sizes() {
    assert_eq!(SYMBOLS.chars().count(), 30);
    for bits in 0u8..8u8 {
        let (s, d, u): (bool, bool, bool) = (bits & 1 != 0, bits & 2 != 0, bits & 4 != 0);
        let mut expected: usize = 26;
        if s {
            expected += 30;
        }
        if d {
            expected += 10;
        }
        if u {
            expected += 26;
        }
        assert_eq!(build_charset(s, d, u).chars().count(), expected);
    }
}

#[test]
fn charset_holds_no_character_twice() {
    let all: Vec<char> = build_charset(true, true, true).chars().collect();
    for i in 0..all.len() {
        for j in 0..i {
            assert_ne!(all[i], all[j]);
        }
    }
}

#[test]
fn password_has_the_length_asked_for() {
    let lengths: Vec<usize> = vec![0, 1, 2, 11, 12, 16, 64, 1000];
    for length in lengths {
        for bits in 0u8..8u8 {
            let p: String = create_password(length, bits & 1 != 0, bits & 2 != 0, bits & 4 != 0);
            assert_eq!(p.chars().count(), length);
            assert_eq!(p.len(), length);
        }
    }
}

#[test]
fn password_of_length_zero_is_empty() {
    assert_eq!(create_password(0, true, true, true), "");
    assert_eq!(create_password(0, false, false, false), "");
}

#[test]
fn password_characters_come_from_its_charset() {
    for bits in 0u8..8u8 {
        let (s, d, u): (bool, bool, bool) = (bits & 1 != 0, bits & 2 != 0, bits & 4 != 0);
        let charset: String = build_charset(s, d, u);
        let p: String = create_password(500, s, d, u);
        for c in p.chars() {
            assert!(charset.contains(c));
        }
    }
}

#[test]
fn excluded_classes_do_not_occur() {
    let p: String = create_password(2000, false, true, true);
    assert!(p.chars().all(|c| c.is_ascii_alphanumeric()));
    let p: String = create_password(2000, true, false, true);
    assert!(p.chars().all(|c| !c.is_ascii_digit()));
    let p: String = create_password(2000, true, true, false);
    assert!(p.chars().all(|c| !c.is_uppercase()));
    let p: String = create_password(2000, false, false, false);
    assert!(p.chars().all(|c| c.is_ascii_lowercase()));
}

#[test]
fn every_character_of_the_charset_is_drawn_sooner_or_later() {
    let charset: String = build_charset(true, true, true);
    let p: String = create_password(20000, true, true, true);
    for c in charset.chars() {
        assert!(p.contains(c));
    }
}

#[test]
fn draws_are_spread_over_the_charset() {
    // 26 000 draws over 26 letters: 1000 expected of each.
    let p: String = create_password(26000, false, false, false);
    for c in LOWER.chars() {
        let n: usize = p.chars().filter(|x| *x == c).count();
        assert!(n > 700 && n < 1300);
    }
}

#[test]
fn two_passwords_differ() {
    let a: String = create_password(40, true, true, true);
    let b: String = create_password(40, true, true, true);
    assert_ne!(a, b);
}

#[test]
fn token_of_length_zero_is_empty() {
    assert_eq!(generate_token(0), "");
}

#[test]
fn token_has_the_length_asked_for_and_is_alphanumeric() {
    let lengths: Vec<usize> = vec![1, 2, 31, 32, 33, 500];
    for length in lengths {
        let t: String = generate_token(length);
        assert_eq!(t.chars().count(), length);
        assert!(t.chars().all(|c| c.is_ascii_alphanumeric()));
    }
}

#[test]
fn every_one_of_the_62_characters_is_drawn_sooner_or_later() {
    let t: String = generate_token(20000);
    let alphabet: String = format!("{}{}{}", UPPER, LOWER, DIGITS);
    assert_eq!(alphabet.chars().count(), 62);
    for c in alphabet.chars() {
        assert!(t.contains(c));
    }
}

#[test]
fn two_tokens_differ() {
    assert_ne!(generate_token(32), generate_token(32));
}

#[test]
fn picked_characters_follow_the_indices() {
    let charset: Vec<char> = vec!['a', 'b', 'c'];
    let indices: Vec<usize> = vec![2, 0, 1, 1];
    assert_eq!(pick_chars(&charset, &indices), "cabb");
    let none: Vec<usize> = Vec::new();
    assert_eq!(pick_chars(&charset, &none), "");
}

#[test]
fn picked_characters_from_the_full_charset() {
    let charset: Vec<char> = build_charset(true, true, true).chars().collect();
    let indices: Vec<usize> = vec![0, 25, 26, 55, 56, 65, 66, 91];
    assert_eq!(pick_chars(&charset, &indices), "az!~09AZ");
}

#[test]
fn token_from_bytes_keeps_each_byte() {
    let bytes: Vec<u8> = vec![b'a', b'Z', b'9', b'0'];
    assert_eq!(token_from_bytes(&bytes), "aZ90");
    let none: Vec<u8> = Vec::new();
    assert_eq!(token_from_bytes(&none), "");
}

#[test]
fn chars_of_gives_each_character() {
    assert_eq!(chars_of("aé€"), vec!['a', 'é', '€']);
    assert_eq!(chars_of(""), Vec::<char>::new());
}

#[test]
fn drawn_indices_stay_in_range() {
    let v: Vec<usize> = draw_indices(9, 5000);
    assert_eq!(v.len(), 5000);
    assert!(v.iter().all(|i| *i <= 9));
    for wanted in 0usize..10usize {
        assert!(v.contains(&wanted));
    }
    assert_eq!(draw_indices(0, 3), vec![0, 0, 0]);
    assert_eq!(draw_indices(5, 0), Vec::<usize>::new());
}

#[test]
fn drawn_indices_cover_the_whole_range_of_usize() {
    let v: Vec<usize> = draw_indices(usize::MAX, 100);
    assert_eq!(v.len(), 100);
    assert!(v.iter().any(|i| *i != usize::MAX));
}

#[test]
fn drawn_bytes_are_letters_and_digits() {
    let v: Vec<u8> = draw_alphanumeric(5000);
    assert_eq!(v.len(), 5000);
    assert!(v.iter().all(|b| b.is_ascii_alphanumeric()));
    assert_eq!(draw_alphanumeric(0), Vec::<u8>::new());
}

#[test]
fn index_bound_is_the_last_position() {
    assert_eq!(index_bound(0), Err(GenerationError::EmptyCharset));
    assert_eq!(index_bound(1), Ok(0));
    assert_eq!(index_bound(26), Ok(25));
    assert_eq!(index_bound(92), Ok(91));
    assert_eq!(index_bound(usize::MAX), Ok(usize::MAX - 1));
}

#[test]
fn first_and_last_character_of_the_charset_are_both_drawn() {
    for bits in 0u8..8u8 {
        let (s, d, u): (bool, bool, bool) = (bits & 1 != 0, bits & 2 != 0, bits & 4 != 0);
        let charset: Vec<char> = build_charset(s, d, u).chars().collect();
        let p: String = create_password(20000, s, d, u);
        assert!(p.contains(charset[0]));
        assert!(p.contains(charset[charset.len() - 1]));
    }
}

#[test]
fn empty_charset_is_refused() {
    assert_eq!(sample_from("", 8), Err(GenerationError::EmptyCharset));
    assert_eq!(sample_from("", 0), Err(GenerationError::EmptyCharset));
}

#[test]
fn charset_of_one_character_leaves_no_choice() {
    assert_eq!(sample_from("x", 5), Ok("xxxxx".to_string()));
    assert_eq!(sample_from("x", 0), Ok(String::new()));
}

#[test]
fn sampling_counts_characters_not_bytes() {
    let s: String = sample_from("é€", 300).unwrap();
    assert_eq!(s.chars().count(), 300);
    assert!(s.chars().all(|c| c == 'é' || c == '€'));
    assert!(s.contains('é') && s.contains('€'));
}
