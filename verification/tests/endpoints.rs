use oanda_rust::account::AccountService;
use oanda_rust::endpoint::{Endpoint, Method, RejectBody, ResponseClass};
use oanda_rust::errors::APIError;
use oanda_rust::http::{Connection, FX_TRADE_URL};
use oanda_rust::instrument::{FetchCandlesticksRequest, InstrumentService};
use oanda_rust::order::OrderService;
use oanda_rust::position::PositionService;
use oanda_rust::trade::TradeService;
use oanda_rust::transaction::{
    GetTransactionsByIDRangeRequest, GetTransactionsBySinceIDRequest, ListTransactionsRequest,
    TransactionService,
};
use oanda_rust::url::Url;

fn connection() -> Connection {
    let mut connection = Connection::new(Url::parse(FX_TRADE_URL).unwrap());
    connection.set_account_id("101-001-1".to_string());
    connection
}

fn check(endpoint: Result<Endpoint, APIError>, method: Method, target: &str, success: u16) -> Endpoint {
    let endpoint = endpoint.unwrap();
    assert_eq!(endpoint.method, method, "{target}");
    assert_eq!(endpoint.url.as_string().unwrap(), format!("https://api-fxtrade.oanda.com{target}"));
    assert_eq!(endpoint.success, success, "{target}");
    assert_eq!(endpoint.classify(success), ResponseClass::Success);
    endpoint
}

#[test]
fn account_endpoints() {
    let connection = connection();
    let service = AccountService::new(&connection);
    let id = "001".to_string();
    check(service.list(), Method::Get, "/v3/accounts", 200);
    check(service.get_details(&id), Method::Get, "/v3/accounts/001", 200);
    check(service.get_summary(&id), Method::Get, "/v3/accounts/001/summary", 200);
    check(
        service.get_instruments(&id, &Some(vec!["EUR_USD".to_string(), " USD_JPY".to_string()])),
        Method::Get,
        "/v3/accounts/001/instruments?instruments=EUR_USD%2CUSD_JPY",
        200,
    );
    check(service.get_instruments(&id, &None), Method::Get, "/v3/accounts/001/instruments", 200);
    let configure = check(service.configure(&id), Method::Patch, "/v3/accounts/001/configuration", 200);
    assert_eq!(configure.classify(403), ResponseClass::Reject(RejectBody::ConfigureAccount));
    check(
        service.get_changes(&id, &"6".to_string()),
        Method::Get,
        "/v3/accounts/001/changes?sinceTransactionID=6",
        200,
    );
    assert!(matches!(service.get_details(&" ".to_string()), Err(APIError::InvalidRequest(_))));
}

#[test]
fn instrument_endpoints() {
    let connection = connection();
    let service = InstrumentService::new(&connection);
    check(service.list(), Method::Get, "/v3/accounts/101-001-1/instruments", 200);
    let request = FetchCandlesticksRequest::new(" EUR_USD ".into()).mid().count(50).unwrap();
    check(
        service.fetch_candlesticks(&request),
        Method::Get,
        "/v3/instruments/EUR_USD/candles?price=M&count=50",
        200,
    );
}

#[test]
fn order_endpoints() {
    let connection = connection();
    let service = OrderService::new(&connection);
    let spec = "@mine".to_string();
    check(service.create(), Method::Post, "/v3/accounts/101-001-1/orders", 201);
    check(service.list_pending(), Method::Get, "/v3/accounts/101-001-1/pendingOrders", 200);
    check(service.get_details(&spec), Method::Get, "/v3/accounts/101-001-1/orders/@mine", 200);
    check(service.replace(&spec), Method::Put, "/v3/accounts/101-001-1/orders/@mine", 201);
    let update = check(
        service.update_client_extensions(&spec),
        Method::Put,
        "/v3/accounts/101-001-1/orders/@mine/clientExtensions",
        200,
    );
    assert_eq!(
        update.classify(400),
        ResponseClass::Reject(RejectBody::UpdateOrderClientExtensions)
    );
}

#[test]
fn trade_and_position_endpoints() {
    let connection = connection();
    let trades = TradeService::new(&connection);
    let spec = "42".to_string();
    check(trades.list(), Method::Get, "/v3/accounts/101-001-1/trades", 200);
    check(trades.list_open(), Method::Get, "/v3/accounts/101-001-1/openTrades", 200);
    check(trades.get_details(&spec), Method::Get, "/v3/accounts/101-001-1/trades/42", 200);
    let close = check(trades.close(&spec), Method::Put, "/v3/accounts/101-001-1/trades/42/close", 200);
    assert_eq!(close.classify(404), ResponseClass::Reject(RejectBody::CloseTrade));
    let update = check(
        trades.update_client_extensions(&spec),
        Method::Put,
        "/v3/accounts/101-001-1/trades/42/clientExtensions",
        200,
    );
    assert_eq!(
        update.classify(404),
        ResponseClass::Reject(RejectBody::UpdateTradeClientExtensions)
    );
    let positions = PositionService::new(&connection);
    check(positions.list(), Method::Get, "/v3/accounts/101-001-1/positions", 200);
    check(positions.list_open(), Method::Get, "/v3/accounts/101-001-1/openPositions", 200);
    check(
        positions.get_details(&"EUR_USD".to_string()),
        Method::Get,
        "/v3/accounts/101-001-1/positions/EUR_USD",
        200,
    );
    let close = check(
        positions.close(&"EUR_USD".to_string()),
        Method::Put,
        "/v3/accounts/101-001-1/positions/EUR_USD/close",
        200,
    );
    assert_eq!(close.classify(400), ResponseClass::Reject(RejectBody::ClosePosition));
}

#[test]
fn transaction_endpoints() {
    let connection = connection();
    let service = TransactionService::new(&connection);
    check(
        service.list(&ListTransactionsRequest::new().page_size(10)),
        Method::Get,
        "/v3/accounts/101-001-1/transactions?pageSize=10",
        200,
    );
    check(
        service.get_details(&"7".to_string()),
        Method::Get,
        "/v3/accounts/101-001-1/transactions/7",
        200,
    );
    check(
        service.get_by_id_range(&GetTransactionsByIDRangeRequest::new("1".into(), "5".into())),
        Method::Get,
        "/v3/accounts/101-001-1/transactions/idrange?from=1&to=5",
        200,
    );
    check(
        service.get_by_since_id(&GetTransactionsBySinceIDRequest::new("5".into())),
        Method::Get,
        "/v3/accounts/101-001-1/transactions/sinceid?id=5",
        200,
    );
}
