use media_sender::auth::{
    generate_auth_key, long_term_credentials, parse_timestamp, AuthHandler, LongTermAuthHandler,
};
use media_sender::errors::AuthError;

#[test]
fn generate_auth_key_is_deterministic() {
    let a = generate_auth_key("1000000000", "realm", "pw");
    let b = generate_auth_key("1000000000", "realm", "pw");
    assert_eq!(a, b);
    assert_eq!(a.len(), 16);
    assert_eq!(
        a,
        vec![39, 23, 55, 59, 69, 158, 244, 38, 155, 63, 98, 173, 224, 129, 52, 176]
    );
}

#[test]
fn long_term_credentials_matches_known_derivation() {
    let password = long_term_credentials("1000000000", "sharedsecret");
    assert_eq!(password, "e1Lf4rH3OTBqODSv4dUN9s2SdE0=");
}

#[test]
fn past_timestamp_is_expired() {
    let handler = LongTermAuthHandler::new("sharedsecret".to_string());
    let r = handler.auth_handle_at("1000000000", "myrealm", 1_700_000_000);
    assert_eq!(r, Err(AuthError::Expired));
}

#[test]
fn current_or_future_timestamp_yields_key() {
    let handler = LongTermAuthHandler::new("sharedsecret".to_string());
    let key = handler
        .auth_handle_at("1000000000", "myrealm", 1_000_000_000)
        .unwrap();
    assert_eq!(key.len(), 16);
    assert_eq!(
        key,
        vec![104, 49, 160, 57, 32, 150, 109, 248, 174, 101, 192, 160, 176, 11, 186, 140]
    );
}

#[test]
fn non_numeric_username_is_rejected() {
    let handler = LongTermAuthHandler::new("sharedsecret".to_string());
    assert_eq!(
        handler.auth_handle_at("notanumber", "myrealm", 0),
        Err(AuthError::InvalidTimestamp)
    );
    assert_eq!(
        handler.auth_handle_at("", "myrealm", 0),
        Err(AuthError::InvalidTimestamp)
    );
    assert_eq!(
        handler.auth_handle_at("+", "myrealm", 0),
        Err(AuthError::InvalidTimestamp)
    );
    assert_eq!(
        handler.auth_handle_at("99999999999999999999999999", "myrealm", 0),
        Err(AuthError::InvalidTimestamp)
    );
}

#[test]
fn clock_based_authentication() {
    let handler = LongTermAuthHandler::new("sharedsecret".to_string());
    let key = handler.auth_handle("9999999999", "myrealm").unwrap();
    assert_eq!(key.len(), 16);
    assert_eq!(
        handler.auth_handle("1000000000", "myrealm"),
        Err(AuthError::Expired)
    );
}

#[test]
fn timestamp_parsing_accepts_decimal_and_sign() {
    assert_eq!(parse_timestamp("123"), Some(123));
    assert_eq!(parse_timestamp("+123"), Some(123));
    assert_eq!(parse_timestamp("0000000001"), Some(1));
    assert_eq!(parse_timestamp("18446744073709551615"), Some(u64::MAX));
    assert_eq!(parse_timestamp("18446744073709551616"), None);
    assert_eq!(parse_timestamp("12a3"), None);
    assert_eq!(parse_timestamp("-1"), None);
    assert_eq!(parse_timestamp(" 1"), None);
}
