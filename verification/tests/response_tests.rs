use tda_sdk::responses::SecuritiesAccount;
use tda_sdk::{
    handle_account_response, handle_accounts_response, handle_movers_response,
    handle_price_history_response, handle_token_response, AccessToken, ClientError,
};

const ERROR_BODY: &str = "{\"error\":\"invalid_grant\"}";

fn assert_not_http_ok(e: ClientError, expected_status: u16) {
    match e {
        ClientError::NotHttpOk(status, body) => {
            assert_eq!(status, expected_status);
            assert_eq!(body, ERROR_BODY);
        },
        other => panic!("expected the unexpected-status error, got {:?}", other),
    }
}

fn assert_parse_error<T: std::fmt::Debug>(r: Result<T, ClientError>) {
    match r {
        Err(ClientError::ParseResponse(_)) => {},
        other => panic!("expected the malformed-response error, got {:?}", other),
    }
}

#[test]
fn non_ok_status_surfaces_code_and_body_on_every_endpoint() {
    let r = handle_token_response(401, ERROR_BODY.to_string());
    assert_not_http_ok(r.unwrap_err(), 401);
    let r = handle_account_response(401, ERROR_BODY.to_string());
    assert_not_http_ok(r.unwrap_err(), 401);
    let r = handle_accounts_response(500, ERROR_BODY.to_string());
    assert_not_http_ok(r.unwrap_err(), 500);
    let r = handle_movers_response(403, ERROR_BODY.to_string());
    assert_not_http_ok(r.unwrap_err(), 403);
    let r = handle_price_history_response(404, ERROR_BODY.to_string());
    assert_not_http_ok(r.unwrap_err(), 404);
}

#[test]
fn ok_status_with_invalid_json_is_a_parse_error() {
    assert_parse_error(handle_token_response(200, "not json".to_string()));
    assert_parse_error(handle_price_history_response(200, "{".to_string()));
}

#[test]
fn token_body_missing_required_field_is_a_parse_error() {
    let body = "{\"access_token\":\"T1\",\"expires_in\":1800}";
    assert_parse_error(handle_token_response(200, body.to_string()));
}

#[test]
fn end_to_end_refresh_from_stubbed_body() {
    let body = "{\"access_token\":\"T1\",\"scope\":\"read write\",\"expires_in\":1800}";
    let response = handle_token_response(200, body.to_string()).unwrap();
    assert_eq!(response.access_token, "T1");
    assert_eq!(response.scope, "read write");
    assert_eq!(response.expires_in, 1800);

    let now = 1_700_000_000_000_i64;
    let token = AccessToken::from_response_at(&response, now);
    assert_eq!(token.token, "T1");
    assert_eq!(token.scope, vec!["read".to_string(), "write".to_string()]);
    assert_eq!(token.expires_at, now + 1_800_000);
}

#[test]
fn price_history_fills_candles_exactly() {
    let body = "{\"candles\":[{\"open\":1.5,\"high\":2.5,\"low\":0.5,\"close\":2.0,\
                \"volume\":100,\"datetime\":1000}],\"empty\":false,\"symbol\":\"AAPL\"}";
    let r = handle_price_history_response(200, body.to_string()).unwrap();
    assert_eq!(r.symbol, "AAPL");
    assert!(!r.empty);
    assert_eq!(r.candles.len(), 1);
    let c = &r.candles[0];
    assert_eq!(c.open_bits, 1.5f64.to_bits());
    assert_eq!(c.high_bits, 2.5f64.to_bits());
    assert_eq!(c.low_bits, 0.5f64.to_bits());
    assert_eq!(c.close_bits, 2.0f64.to_bits());
    assert_eq!(c.volume, 100);
    assert_eq!(c.datetime, 1000);
}

#[test]
fn price_history_missing_symbol_is_a_parse_error() {
    let body = "{\"candles\":[],\"empty\":true}";
    assert_parse_error(handle_price_history_response(200, body.to_string()));
}

#[test]
fn price_history_bad_candle_is_a_parse_error() {
    let body = "{\"candles\":[{\"open\":1.5}],\"empty\":false,\"symbol\":\"AAPL\"}";
    assert_parse_error(handle_price_history_response(200, body.to_string()));
}

#[test]
fn movers_fill_every_field() {
    let body = "[{\"change\":0.25,\"description\":\"Dow mover\",\"direction\":\"up\",\
                \"last\":10.75,\"symbol\":\"X\",\"totalVolume\":5000}]";
    let movers = handle_movers_response(200, body.to_string()).unwrap();
    assert_eq!(movers.len(), 1);
    let m = &movers[0];
    assert_eq!(m.change_bits, 0.25f64.to_bits());
    assert_eq!(m.description, "Dow mover");
    assert_eq!(m.direction, "up");
    assert_eq!(m.last_bits, 10.75f64.to_bits());
    assert_eq!(m.symbol, "X");
    assert_eq!(m.total_volume, 5000);
}

#[test]
fn movers_element_missing_a_field_is_a_parse_error() {
    let body = "[{\"change\":0.25,\"description\":\"D\",\"direction\":\"up\",\
                \"symbol\":\"X\",\"totalVolume\":5000}]";
    assert_parse_error(handle_movers_response(200, body.to_string()));
}

fn margin_account_body() -> String {
    "{\"securitiesAccount\":{\"type\":\"MARGIN\",\"accountId\":\"A1\",\"roundTrips\":2,\
     \"isDayTrader\":false,\"isClosingOnlyRestricted\":true,\"initialBalances\":{},\
     \"currentBalances\":{},\"projectedBalances\":{}}}"
        .to_string()
}

#[test]
fn account_with_margin_shape_fills_the_margin_variant() {
    let r = handle_account_response(200, margin_account_body()).unwrap();
    match r.securities_account {
        SecuritiesAccount::MarginAccount {
            account_type,
            account_id,
            round_trips,
            is_day_trader,
            is_closing_only_restricted,
            initial_balances,
            current_balances,
            projected_balances,
        } => {
            assert_eq!(account_type, "MARGIN");
            assert_eq!(account_id, "A1");
            assert_eq!(round_trips, 2);
            assert!(!is_day_trader);
            assert!(is_closing_only_restricted);
            assert!(initial_balances.is_object());
            assert!(current_balances.is_object());
            assert!(projected_balances.is_object());
        },
        other => panic!("expected the margin variant, got {:?}", other),
    }
}

#[test]
fn account_of_unmodeled_shape_is_kept_whole_as_unknown() {
    let body = "{\"securitiesAccount\":{\"type\":\"CASH\",\"accountId\":\"A2\"}}";
    let r = handle_account_response(200, body.to_string()).unwrap();
    match r.securities_account {
        SecuritiesAccount::Unknown(raw) => {
            assert_eq!(raw.get("type").and_then(|v| v.as_str()), Some("CASH"));
            assert_eq!(raw.get("accountId").and_then(|v| v.as_str()), Some("A2"));
        },
        other => panic!("expected the unknown fallback, got {:?}", other),
    }
}

#[test]
fn account_without_wrapper_field_is_a_parse_error() {
    let body = "{\"type\":\"MARGIN\"}";
    assert_parse_error(handle_account_response(200, body.to_string()));
}

#[test]
fn accounts_listing_fills_each_entry() {
    let body = format!("[{}]", margin_account_body());
    let accounts = handle_accounts_response(200, body).unwrap();
    assert_eq!(accounts.len(), 1);
    match &accounts[0].securities_account {
        SecuritiesAccount::MarginAccount { account_id, .. } => assert_eq!(account_id, "A1"),
        other => panic!("expected the margin variant, got {:?}", other),
    }
}

#[test]
fn accounts_listing_that_is_not_an_array_is_a_parse_error() {
    assert_parse_error(handle_accounts_response(200, margin_account_body()));
}
