use tda_sdk::responses::AccessTokenResponse;
use tda_sdk::{split_scopes, AccessToken};

#[test]
fn scope_split_three_entries_in_order() {
    let scopes = split_scopes("read write trade");
    assert_eq!(scopes, vec!["read".to_string(), "write".to_string(), "trade".to_string()]);
}

#[test]
fn scope_split_empty_text_is_one_empty_entry() {
    let scopes = split_scopes("");
    assert_eq!(scopes, vec![String::new()]);
}

#[test]
fn scope_split_keeps_empty_pieces_between_spaces() {
    assert_eq!(split_scopes("a  b"), vec!["a".to_string(), String::new(), "b".to_string()]);
    assert_eq!(split_scopes("a "), vec!["a".to_string(), String::new()]);
    assert_eq!(split_scopes(" a"), vec![String::new(), "a".to_string()]);
}

#[test]
fn token_expiry_is_construction_time_plus_lifetime() {
    let response = AccessTokenResponse {
        access_token: "T".to_string(),
        scope: "read".to_string(),
        expires_in: 1800,
    };
    let token = AccessToken::from_response_at(&response, 1_000_000);
    assert_eq!(token.expires_at, 1_000_000 + 1_800_000);
    assert_eq!(token.token, "T");
    assert_eq!(token.scope, vec!["read".to_string()]);
}

#[test]
fn expiry_check_sense_both_directions() {
    let response = AccessTokenResponse {
        access_token: "T".to_string(),
        scope: "read".to_string(),
        expires_in: 60,
    };
    let token = AccessToken::from_response_at(&response, 0);
    assert!(!token.has_expired_at(0));
    assert!(!token.has_expired_at(59_999));
    assert!(token.has_expired_at(60_000));
    assert!(token.has_expired_at(60_001));
}

#[test]
fn wall_clock_expiry_check_agrees_with_extremes() {
    let fresh = AccessToken {
        expires_at: i64::MAX,
        scope: Vec::new(),
        token: "T".to_string(),
    };
    assert!(!fresh.has_expired());
    let stale = AccessToken {
        expires_at: 0,
        scope: Vec::new(),
        token: "T".to_string(),
    };
    assert!(stale.has_expired());
}

#[test]
fn from_response_uses_the_payload_fields() {
    let response = AccessTokenResponse {
        access_token: "TOK".to_string(),
        scope: "read write".to_string(),
        expires_in: 1800,
    };
    let token = AccessToken::from_response(&response).unwrap();
    assert_eq!(token.token, "TOK");
    assert_eq!(token.scope, vec!["read".to_string(), "write".to_string()]);
}

#[test]
fn persisted_round_trip_keeps_every_field() {
    let token = AccessToken {
        expires_at: 123_456_789,
        scope: vec!["read".to_string(), "trade".to_string()],
        token: "bearer-text".to_string(),
    };
    let back = tda_sdk::persisted_round_trip(&token);
    assert_eq!(back.expires_at, token.expires_at);
    assert_eq!(back.token, token.token);
    assert_eq!(back.scope, token.scope);
}

#[test]
fn persisted_shape_read_back_from_text() {
    let text = "{\"expires_at\":77,\"scope\":[\"read\",\"write\"],\"token\":\"T9\"}";
    let value: serde_json::Value = serde_json::from_str(text).unwrap();
    let token = tda_sdk::decode_persisted_token(&value).unwrap();
    assert_eq!(token.expires_at, 77);
    assert_eq!(token.scope, vec!["read".to_string(), "write".to_string()]);
    assert_eq!(token.token, "T9");
}

#[test]
fn persisted_shape_rejects_non_string_scope_entry() {
    let text = "{\"expires_at\":77,\"scope\":[\"read\",3],\"token\":\"T9\"}";
    let value: serde_json::Value = serde_json::from_str(text).unwrap();
    assert!(tda_sdk::decode_persisted_token(&value).is_none());
}
