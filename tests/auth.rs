use gws::auth::{
    check_session, session_expiry, AuthError, AuthSecurity, Credentials, Password, Token,
};

const ABC_DIGEST: &str = "ba7816bf8f01cfea414140de5dae2223b00361a396177a9cb410ff61f20015ad";

#[test]
fn token_hash_is_hex_sha256() {
    let token = Token::new("abc".to_string());
    assert_eq!(token.hashed(), ABC_DIGEST);
    assert_eq!(token.hash().unwrap(), ABC_DIGEST);
    assert!(token.matches(ABC_DIGEST));
    assert!(token.verify(ABC_DIGEST).is_ok());
    assert!(matches!(token.verify("abc"), Err(AuthError::Invalid)));
    assert_eq!(token.value(), "abc");
}

#[test]
fn generated_tokens_are_random_hex() {
    let a = Token::generate().unwrap().value();
    let b = Token::generate().unwrap().value();
    assert_eq!(a.len(), 64);
    assert!(a.chars().all(|c| c.is_ascii_hexdigit() && !c.is_ascii_uppercase()));
    assert_ne!(a, b);
}

#[test]
fn malformed_password_hash_is_not_a_mismatch() {
    let password = Password::new("secret".to_string());
    assert!(matches!(password.verify("not a hash"), Err(AuthError::Other(_))));
    assert!(matches!(password.check("not a hash"), Err(AuthError::Other(_))));
}

#[test]
fn password_hash_round_trip() {
    let password = Password::new("secret".to_string());
    let hash = password.hash().unwrap();
    assert!(hash.starts_with("$argon2id$"));
    assert!(password.verify(&hash).is_ok());
    assert!(matches!(Password::new("other".to_string()).verify(&hash), Err(AuthError::Invalid)));
}

#[test]
fn remembered_sessions_last_a_day() {
    assert_eq!(session_expiry(1000, true), Some(87400));
    assert_eq!(session_expiry(1000, false), None);
}

#[test]
fn sessions_are_checked() {
    assert_eq!(check_session(Some((None, 5)), 100).ok(), Some(5));
    assert_eq!(check_session(Some((Some(100), 5)), 100).ok(), Some(5));
    assert!(matches!(check_session(Some((Some(99), 5)), 100), Err(AuthError::Invalid)));
    assert!(matches!(check_session(None, 100), Err(AuthError::Invalid)));
}

#[test]
fn credentials_expose_username() {
    let c = Credentials::new("alice".to_string(), Password::new("pw".to_string()));
    assert_eq!(c.username_ref(), "alice");
    assert!(!c.password_ref().is_empty());
    assert!(Password::new(String::new()).is_empty());
}
