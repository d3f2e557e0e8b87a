use vault_nova::password::{generate_password, PasswordError, DIGITS, LOWERCASE, SYMBOLS, UPPERCASE};

#[test]
fn generate_password_uses_requested_length() {
    let password = generate_password(24, true, true).expect("generation should succeed");
    assert_eq!(password.len(), 24);
}

#[test]
fn generate_password_fails_for_short_length() {
    let result = generate_password(2, true, true);
    assert!(result.is_err());
}

#[test]
fn generate_password_without_symbols_has_no_symbol_characters() {
    let password = generate_password(40, true, false).expect("generation should succeed");
    assert!(
        !password
            .chars()
            .any(|ch| "!@#$%^&*()-_=+[]{}<>?".contains(ch))
    );
}

#[test]
fn short_length_error_names_the_minimum() {
    assert_eq!(generate_password(3, true, true), Err(PasswordError::TooShort(4)));
    assert_eq!(generate_password(1, false, false), Err(PasswordError::TooShort(2)));
    assert_eq!(generate_password(2, true, false), Err(PasswordError::TooShort(3)));
}

#[test]
fn password_of_exactly_the_minimum_length_has_one_character_per_group() {
    for _ in 0..20 {
        let password = generate_password(4, true, true).expect("generation should succeed");
        assert_eq!(password.chars().count(), 4);
        for group in [LOWERCASE, UPPERCASE, DIGITS, SYMBOLS] {
            assert_eq!(password.chars().filter(|c| group.contains(*c)).count(), 1);
        }
    }
}

#[test]
fn every_selected_group_is_used_and_nothing_else() {
    for _ in 0..20 {
        let password = generate_password(12, false, false).expect("generation should succeed");
        assert!(password.chars().any(|c| LOWERCASE.contains(c)));
        assert!(password.chars().any(|c| UPPERCASE.contains(c)));
        assert!(password.chars().all(|c| LOWERCASE.contains(c) || UPPERCASE.contains(c)));
    }
}

#[test]
fn zero_length_is_refused() {
    assert!(generate_password(0, false, false).is_err());
}
