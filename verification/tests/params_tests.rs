use tda_sdk::params::{
    GetAccountParams, GetAccountsParams, GetMoversParams, GetPriceHistoryParams,
};

#[test]
fn account_params_default_yields_no_pairs() {
    let params = GetAccountParams::default();
    assert_eq!(params.query_params().len(), 0);
}

#[test]
fn account_params_fields_yields_one_pair() {
    let params = GetAccountParams { fields: Some("positions".to_string()) };
    let pairs = params.query_params();
    assert_eq!(pairs.len(), 1);
    assert_eq!(pairs[0].0, "fields");
    assert_eq!(pairs[0].1, "positions");
}

#[test]
fn accounts_params_default_yields_no_pairs() {
    let params = GetAccountsParams::default();
    assert_eq!(params.query_params().len(), 0);
}

#[test]
fn accounts_params_fields_yields_one_pair() {
    let params = GetAccountsParams { fields: Some("orders".to_string()) };
    let pairs = params.query_params();
    assert_eq!(pairs.len(), 1);
    assert_eq!(pairs[0].0, "fields");
    assert_eq!(pairs[0].1, "orders");
}

#[test]
fn movers_params_default_yields_no_pairs() {
    let params = GetMoversParams::default();
    assert_eq!(params.query_params().len(), 0);
}

#[test]
fn movers_params_direction_yields_one_pair() {
    let params = GetMoversParams { change: None, direction: Some("up".to_string()) };
    let pairs = params.query_params();
    assert_eq!(pairs.len(), 1);
    assert_eq!(pairs[0].0, "direction");
    assert_eq!(pairs[0].1, "up");
}

#[test]
fn movers_params_change_yields_one_pair() {
    let params = GetMoversParams { change: Some("percent".to_string()), direction: None };
    let pairs = params.query_params();
    assert_eq!(pairs.len(), 1);
    assert_eq!(pairs[0].0, "change");
    assert_eq!(pairs[0].1, "percent");
}

#[test]
fn movers_params_both_come_in_wire_order() {
    let params = GetMoversParams {
        change: Some("value".to_string()),
        direction: Some("down".to_string()),
    };
    let pairs = params.query_params();
    assert_eq!(pairs.len(), 2);
    assert_eq!(pairs[0].0, "direction");
    assert_eq!(pairs[0].1, "down");
    assert_eq!(pairs[1].0, "change");
    assert_eq!(pairs[1].1, "value");
}

#[test]
fn price_history_params_default_yields_no_pairs() {
    let params = GetPriceHistoryParams::default();
    assert_eq!(params.query_params().len(), 0);
}

#[test]
fn price_history_params_period_type_wire_name() {
    let params = GetPriceHistoryParams { period_type: Some("day".to_string()), ..all_absent() };
    let pairs = params.query_params();
    assert_eq!(pairs.len(), 1);
    assert_eq!(pairs[0].0, "periodType");
    assert_eq!(pairs[0].1, "day");
}

#[test]
fn price_history_params_period_wire_name() {
    let params = GetPriceHistoryParams { period: Some("2".to_string()), ..all_absent() };
    let pairs = params.query_params();
    assert_eq!(pairs.len(), 1);
    assert_eq!(pairs[0].0, "period");
    assert_eq!(pairs[0].1, "2");
}

#[test]
fn price_history_params_frequency_type_wire_name() {
    let params = GetPriceHistoryParams { frequency_type: Some("minute".to_string()), ..all_absent() };
    let pairs = params.query_params();
    assert_eq!(pairs.len(), 1);
    assert_eq!(pairs[0].0, "frequencyType");
    assert_eq!(pairs[0].1, "minute");
}

#[test]
fn price_history_params_frequency_wire_name() {
    let params = GetPriceHistoryParams { frequency: Some("5".to_string()), ..all_absent() };
    let pairs = params.query_params();
    assert_eq!(pairs.len(), 1);
    assert_eq!(pairs[0].0, "frequency");
    assert_eq!(pairs[0].1, "5");
}

#[test]
fn price_history_params_end_date_wire_name() {
    let params = GetPriceHistoryParams { end_date: Some("1700000000000".to_string()), ..all_absent() };
    let pairs = params.query_params();
    assert_eq!(pairs.len(), 1);
    assert_eq!(pairs[0].0, "endDate");
    assert_eq!(pairs[0].1, "1700000000000");
}

#[test]
fn price_history_params_start_date_wire_name() {
    let params = GetPriceHistoryParams { start_date: Some("1690000000000".to_string()), ..all_absent() };
    let pairs = params.query_params();
    assert_eq!(pairs.len(), 1);
    assert_eq!(pairs[0].0, "startDate");
    assert_eq!(pairs[0].1, "1690000000000");
}

#[test]
fn price_history_params_extended_hours_true_and_false() {
    let yes = GetPriceHistoryParams { need_extended_hours_data: Some(true), ..all_absent() };
    let pairs = yes.query_params();
    assert_eq!(pairs.len(), 1);
    assert_eq!(pairs[0].0, "needExtendedHoursData");
    assert_eq!(pairs[0].1, "true");

    let no = GetPriceHistoryParams { need_extended_hours_data: Some(false), ..all_absent() };
    let pairs = no.query_params();
    assert_eq!(pairs.len(), 1);
    assert_eq!(pairs[0].0, "needExtendedHoursData");
    assert_eq!(pairs[0].1, "false");
}

#[test]
fn price_history_params_all_present_in_wire_order() {
    let params = GetPriceHistoryParams {
        end_date: Some("2".to_string()),
        frequency_type: Some("daily".to_string()),
        frequency: Some("1".to_string()),
        need_extended_hours_data: Some(true),
        period_type: Some("month".to_string()),
        period: Some("3".to_string()),
        start_date: Some("1".to_string()),
    };
    let pairs = params.query_params();
    let names: Vec<&str> = pairs.iter().map(|p| p.0.as_str()).collect();
    assert_eq!(
        names,
        vec![
            "periodType",
            "period",
            "frequencyType",
            "frequency",
            "endDate",
            "startDate",
            "needExtendedHoursData",
        ],
    );
}

fn all_absent() -> GetPriceHistoryParams {
    GetPriceHistoryParams::default()
}
