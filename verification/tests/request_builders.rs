use oanda_rust::account::ConfigureAccountRequest;
use oanda_rust::order::{
    LimitOrderRequest, MarketOrderRequest, OrderPositionFill, OrderTriggerCondition,
    StopLossOrderRequest, TimeInForce, TrailingStopLossOrderRequest,
};
use oanda_rust::primitives::Timestamp;
use oanda_rust::transaction::ClientExtensions;

#[test]
fn market_orders_default_to_fill_or_kill() {
    let order = MarketOrderRequest::new("EUR_USD".into(), "100".into());
    assert!(matches!(order.time_in_force, TimeInForce::FOK));
    assert!(matches!(order.position_fill, OrderPositionFill::Default));
    let order = order.ioc().price_bound("1.2".into());
    assert!(matches!(order.time_in_force, TimeInForce::IOC));
    assert_eq!(order.price_bound.as_deref(), Some("1.2"));
    assert_eq!(order.instrument, "EUR_USD");
    assert_eq!(order.units, "100");
}

#[test]
fn good_till_date_records_the_expiry() {
    let expiry = Timestamp::new(1_767_225_600, 0).unwrap();
    let order = LimitOrderRequest::new("EUR_USD".into(), "1".into(), "1.1".into());
    assert!(matches!(order.time_in_force, TimeInForce::GTC));
    assert!(order.gtd_time.is_none());
    let order = order
        .gtd(expiry)
        .trigger_condition(OrderTriggerCondition::Bid);
    assert!(matches!(order.time_in_force, TimeInForce::GTD));
    assert_eq!(order.gtd_time, Some(expiry));
    assert!(matches!(order.trigger_condition, OrderTriggerCondition::Bid));
    let order = order.gfd();
    assert!(matches!(order.time_in_force, TimeInForce::GFD));
}

#[test]
fn dependent_orders_take_their_trade() {
    let order = StopLossOrderRequest::new("42".into(), "1.1".into())
        .client_trade_id("mine".into())
        .distance("0.01".into());
    assert_eq!(order.trade_id, "42");
    assert_eq!(order.client_trade_id.as_deref(), Some("mine"));
    assert_eq!(order.distance.as_deref(), Some("0.01"));
    let trailing = TrailingStopLossOrderRequest::new("42".into(), "0.05".into());
    assert_eq!(trailing.distance, "0.05");
    assert!(matches!(trailing.time_in_force, TimeInForce::GTC));
}

#[test]
fn client_extensions_and_account_configuration() {
    let extensions = ClientExtensions::new().id("id".into()).tag("tag".into());
    assert_eq!(extensions.id.as_deref(), Some("id"));
    assert_eq!(extensions.tag.as_deref(), Some("tag"));
    assert!(extensions.comment.is_none());
    let configure = ConfigureAccountRequest::new().alias("main".into());
    assert_eq!(configure.alias.as_deref(), Some("main"));
    assert!(configure.margin_rate.is_none());
}
