use chrono::{DateTime, Utc};
use oanda_rust::instrument::{CandlestickGranularity, FetchCandlesticksRequest, WeeklyAlignment};
use oanda_rust::order::{ListOrdersRequest, OrderStateFilter};
use oanda_rust::primitives::Timestamp;
use oanda_rust::transaction::{
    GetTransactionsByIDRangeRequest, GetTransactionsBySinceIDRequest, ListTransactionsRequest,
    TransactionFilter, TransactionType,
};
use oanda_rust::url::Url;
use std::collections::BTreeMap;

fn params(url: &Url) -> BTreeMap<String, String> {
    url.query_pairs().unwrap().into_iter().collect()
}

fn timestamp(instant: &DateTime<Utc>) -> Timestamp {
    Timestamp::new(instant.timestamp(), instant.timestamp_subsec_nanos()).unwrap()
}

#[test]
fn regression_transaction_filter_query_parameters() {
    let mut url = Url::parse("https://example.com/transactions").unwrap();
    ListTransactionsRequest::new()
        .transaction_type(TransactionFilter::Order)
        .transaction_type(TransactionFilter::GuaranteedStopLossOrder)
        .transaction_type(TransactionFilter::ResetResettablePL)
        .set_params(&mut url);
    let params = params(&url);
    assert_eq!(params.len(), 1);
    assert_eq!(
        params["type"],
        "ORDER,GUARANTEED_STOP_LOSS_ORDER,RESET_RESETTABLE_PL"
    );

    let mut url = Url::parse("https://example.com/transactions/idrange").unwrap();
    GetTransactionsByIDRangeRequest::new("1".into(), "5".into())
        .filter(TransactionFilter::OrderFill)
        .filter(TransactionFilter::Funding)
        .set_params(&mut url);
    let params = self::params(&url);
    assert_eq!(params.len(), 3);
    assert_eq!(params["from"], "1");
    assert_eq!(params["to"], "5");
    assert_eq!(params["type"], "ORDER_FILL,FUNDING");

    let mut url = Url::parse("https://example.com/transactions/sinceid").unwrap();
    GetTransactionsBySinceIDRequest::new("5".into())
        .filter(TransactionFilter::OrderFill)
        .filter(TransactionFilter::Funding)
        .set_params(&mut url);
    let params = self::params(&url);
    assert_eq!(params.len(), 2);
    assert_eq!(params["id"], "5");
    assert_eq!(params["type"], "ORDER_FILL,FUNDING");
}

#[test]
fn regression_transaction_date_range_query_parameters() {
    let from: DateTime<Utc> = "2026-01-01T00:00:00.123456789Z".parse().unwrap();
    let to: DateTime<Utc> = "2026-01-02T00:00:00Z".parse().unwrap();
    let mut url = Url::parse("https://example.com/transactions").unwrap();
    ListTransactionsRequest::new()
        .from_time(timestamp(&from))
        .to(timestamp(&to))
        .page_size(25)
        .set_params(&mut url);
    let params = params(&url);
    assert_eq!(params.len(), 3);
    assert_eq!(params["from"], from.to_rfc3339());
    assert_eq!(params["to"], to.to_rfc3339());
    assert_eq!(params["pageSize"], "25");
}

#[test]
fn regression_order_state_filters_use_wire_values() {
    for (state, expected) in [
        (OrderStateFilter::Pending, "PENDING"),
        (OrderStateFilter::Filled, "FILLED"),
        (OrderStateFilter::Triggered, "TRIGGERED"),
        (OrderStateFilter::Cancelled, "CANCELLED"),
        (OrderStateFilter::All, "ALL"),
    ] {
        let mut url = Url::parse("https://example.com/orders").unwrap();
        ListOrdersRequest::new().state(state).set_params(&mut url);
        assert_eq!(url.query().unwrap(), Some(format!("state={expected}")));
    }
}

#[test]
fn regression_transaction_filter_values_use_api_casing() {
    assert_eq!(TransactionType::OrderFill.to_string(), "ORDER_FILL");
    assert_eq!(TransactionType::MarketOrder.to_string(), "MARKET_ORDER");
    assert_eq!(TransactionFilter::OrderFill.to_string(), "ORDER_FILL");
    assert_eq!(TransactionFilter::Funding.to_string(), "FUNDING");
    assert_eq!(
        TransactionFilter::ResetResettablePL.to_string(),
        "RESET_RESETTABLE_PL"
    );
    assert_eq!(
        TransactionFilter::ResetResettablePL.as_str(),
        "RESET_RESETTABLE_PL"
    );
    assert_eq!(
        TransactionType::ResetResettablePL.as_str(),
        "RESET_RESETTABLE_PL"
    );
}

#[test]
fn list_orders_writes_every_filter_in_order() {
    let mut url = Url::parse("https://example.com/orders?keep=1").unwrap();
    ListOrdersRequest::new()
        .ids("7".into())
        .ids("9".into())
        .state(OrderStateFilter::Pending)
        .instrument("EUR_USD".into())
        .count(50)
        .before_id("100".into())
        .set_params(&mut url);
    assert_eq!(
        url.query().unwrap(),
        Some("keep=1&ids=7%2C9&state=PENDING&instrument=EUR_USD&count=50&beforeID=100".to_string())
    );
}

#[test]
fn list_orders_without_filters_adds_no_query() {
    let mut url = Url::parse("https://example.com/orders").unwrap();
    ListOrdersRequest::new().set_params(&mut url);
    assert_eq!(url.query().unwrap(), None);
}

#[test]
fn list_transactions_without_filters_adds_no_query() {
    let mut url = Url::parse("https://example.com/transactions").unwrap();
    ListTransactionsRequest::new().set_params(&mut url);
    assert!(params(&url).is_empty());
}

#[test]
fn candle_count_above_the_limit_is_refused() {
    let request = FetchCandlesticksRequest::new("EUR_USD".into());
    assert!(request.count(5000).is_ok());
    let request = FetchCandlesticksRequest::new("EUR_USD".into());
    match request.count(5001) {
        Err(oanda_rust::errors::APIError::InvalidRequest(message)) => {
            assert_eq!(message, "count must be <= 5000")
        }
        _ => panic!("count above 5000 must be refused"),
    }
}

#[test]
fn candle_parameters_use_oanda_names() {
    let request = FetchCandlesticksRequest::new("EUR_USD".into())
        .bid()
        .mid()
        .granularity(CandlestickGranularity::H4)
        .count(100)
        .unwrap()
        .smooth(true)
        .include_first(false)
        .daily_alignment(17)
        .alignment_timezone("America/New_York".into())
        .weekly_alignment(WeeklyAlignment::Friday);
    let mut url = Url::parse("https://example.com/candles").unwrap();
    request.set_params_with_times(&mut url, Some("start"), None);
    let pairs = url.query_pairs().unwrap();
    let expected = [
        ("price", "BM"),
        ("granularity", "H4"),
        ("count", "100"),
        ("from", "start"),
        ("smooth", "true"),
        ("includeFirst", "false"),
        ("dailyAlignment", "17"),
        ("alignmentTimezone", "America/New_York"),
        ("weeklyAlignment", "Friday"),
    ];
    assert_eq!(pairs.len(), expected.len());
    for ((key, value), (want_key, want_value)) in pairs.iter().zip(expected.iter()) {
        assert_eq!(key, want_key);
        assert_eq!(value, want_value);
    }
}

#[test]
fn candle_time_range_is_written_when_set() {
    let from: DateTime<Utc> = "2026-01-01T00:00:00Z".parse().unwrap();
    let request = FetchCandlesticksRequest::new("EUR_USD".into()).from(timestamp(&from));
    let mut url = Url::parse("https://example.com/candles").unwrap();
    request.set_params(&mut url);
    let params = params(&url);
    assert_eq!(params.len(), 1);
    let text = &params["from"];
    let offset = &text[text.len() - 6..];
    assert!(offset.starts_with('+') || offset.starts_with('-'), "{text}");
    assert_eq!(&offset[3..4], ":");
    assert!(text.contains(' '));
}

#[test]
fn granularity_and_alignment_names_read_back() {
    assert_eq!("M1".parse::<CandlestickGranularity>(), Ok(CandlestickGranularity::M1));
    assert_eq!("M".parse::<CandlestickGranularity>(), Ok(CandlestickGranularity::M));
    assert_eq!(CandlestickGranularity::from_name("S5"), Some(CandlestickGranularity::S5));
    assert!("m1".parse::<CandlestickGranularity>().is_err());
    assert_eq!("Sunday".parse::<WeeklyAlignment>(), Ok(WeeklyAlignment::Sunday));
    assert_eq!(WeeklyAlignment::from_name("Funday"), None);
}
