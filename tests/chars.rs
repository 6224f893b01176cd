use digital_rain::chars::{charset_by_name, charset_names, CharacterPool};
use rand::rngs::StdRng;
use rand::SeedableRng;

#[test]
fn charset_names_not_empty() {
    assert!(!charset_names().is_empty());
}

#[test]
fn all_named_charsets_resolve() {
    for name in charset_names() {
        let pool = charset_by_name(name);
        assert!(pool.len() > 0, "charset '{}' should not be empty", name);
    }
}

#[test]
fn unknown_charset_falls_back_to_matrix() {
    let unknown = charset_by_name("nonexistent");
    let matrix = CharacterPool::matrix();
    assert_eq!(unknown.len(), matrix.len());
}

#[test]
fn binary_charset_has_only_zero_and_one() {
    let pool = CharacterPool::binary();
    assert_eq!(pool.len(), 2);
    assert!(pool.contains('0'));
    assert!(pool.contains('1'));
}

#[test]
fn matrix_charset_contains_katakana() {
    let pool = CharacterPool::matrix();
    assert!(pool.contains('\u{FF66}'));
}

#[test]
fn random_char_returns_valid_char() {
    let pool = CharacterPool::matrix();
    let mut rng = StdRng::seed_from_u64(11);
    for _ in 0..100 {
        let ch = pool.random_char(&mut rng);
        assert!(pool.contains(ch));
    }
}

#[test]
fn pool_sizes() {
    assert_eq!(CharacterPool::matrix().len(), 80);
    assert_eq!(CharacterPool::ascii().len(), 94);
    assert_eq!(CharacterPool::digits().len(), 10);
    assert_eq!(CharacterPool::katakana().len(), 58);
    assert_eq!(CharacterPool::latin().len(), 52);
    assert!(CharacterPool::latin().contains('z'));
    assert!(!CharacterPool::ascii().contains(' '));
    assert!(CharacterPool::matrix().contains('^'));
}

#[test]
fn random_char_draws_more_than_one_glyph() {
    let pool = CharacterPool::digits();
    let mut rng = StdRng::seed_from_u64(3);
    let first = pool.random_char(&mut rng);
    let mut other = false;
    for _ in 0..200 {
        if pool.random_char(&mut rng) != first {
            other = true;
        }
    }
    assert!(other);
}
