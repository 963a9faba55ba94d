//! Positions, their dynamic state and the close-position request.
use crate::instrument::InstrumentName;
use crate::primitives::DecimalNumber;
use crate::transaction::details::ClientExtensions;
use crate::transaction::event::{
    MarketOrderRejectTransaction, MarketOrderTransaction, OrderCancelTransaction,
    OrderFillTransaction,
};
use crate::transaction::types::{AccountUnits, TradeID, TransactionID};
use crate::endpoint::{
    endpoint_at, endpoint_matches, path1, path2, path3, Endpoint, Method, RejectRule,
};
use crate::errors::APIError;
use crate::http::{account_url_outcome, Connection};
use crate::text::{trim, trim_ws};
use vstd::prelude::*;

verus! {

/// The net exposure an account holds on a single instrument, aggregating all
/// open trades on both the long and short side.
///
/// A position exists as long as there is at least one open trade on the
/// instrument. Returned by the position endpoints and embedded in full account
/// detail responses.
#[derive(Debug)]
pub struct Position {
    /// The instrument this position is on (e.g. `"EUR_USD"`).
    pub instrument: InstrumentName,
    /// Cumulative realised profit/loss across all closed trades on this
    /// instrument, in home currency units.
    pub pl: AccountUnits,
    /// Current unrealised profit/loss based on the live market price,
    /// in home currency units.
    pub unrealized_pl: AccountUnits,
    /// Margin currently consumed by the net open position, in home currency
    /// units. `None` when the position is closed.
    pub margin_used: Option<AccountUnits>,
    /// Realised P&L since the last account P&L reset, in home currency units.
    pub resettable_pl: AccountUnits,
    /// Cumulative financing (swap/rollover) charges or credits applied to all
    /// trades on this instrument, in home currency units.
    pub financing: Option<AccountUnits>,
    /// Cumulative commission paid on trades for this instrument, in home
    /// currency units.
    pub commission: Option<AccountUnits>,
    /// Cumulative dividend adjustment applied to this position (for CFDs that
    /// pay dividends), in home currency units.
    pub dividend_adjustment: Option<AccountUnits>,
    /// Cumulative fees paid for guaranteed stop-loss execution on this
    /// instrument, in home currency units.
    pub guaranteed_execution_fees: Option<AccountUnits>,
    /// Aggregated state of all long (buy) trades on this instrument.
    pub long: PositionSide,
    /// Aggregated state of all short (sell) trades on this instrument.
    pub short: PositionSide,
}

/// The aggregated state of all trades on one side (long or short) of a
/// [`Position`].
#[derive(Debug)]
pub struct PositionSide {
    /// Net number of units held on this side. Positive for long, negative for
    /// short. Zero when there are no open trades on this side.
    pub units: DecimalNumber,
    /// Volume-weighted average open price across all trades on this side.
    /// `None` when `units` is zero.
    pub average_price: Option<DecimalNumber>,
    /// IDs of the open trades that make up this side of the position.
    /// `None` when there are no open trades on this side.
    pub trade_ids: Option<Vec<TradeID>>,
    /// Cumulative realised profit/loss from closed trades on this side, in
    /// home currency units.
    pub pl: AccountUnits,
    /// Current unrealised profit/loss on this side based on the live market
    /// price, in home currency units.
    pub unrealized_pl: AccountUnits,
    /// Realised P&L on this side since the last account P&L reset, in home
    /// currency units.
    pub resettable_pl: AccountUnits,
    /// Cumulative financing charges or credits on this side, in home currency
    /// units.
    pub financing: Option<AccountUnits>,
    /// Cumulative dividend adjustment on this side, in home currency units.
    pub dividend_adjustment: Option<AccountUnits>,
    /// Cumulative guaranteed execution fees on this side, in home currency
    /// units.
    pub guaranteed_execution_fees: Option<AccountUnits>,
}

/// The price-dependent (dynamic) state of a position, returned as part of
/// [`AccountChangesState`](crate::account::AccountChangesState).
///
/// Contains only the fields that change as the market moves; all static
/// position data is in [`Position`].
#[derive(Debug)]
pub struct CalculatedPositionState {
    /// The instrument this position state belongs to.
    pub instrument: InstrumentName,
    /// Net unrealised P&L across both long and short sides, in home currency
    /// units (`long_unrealized_pl + short_unrealized_pl`).
    pub net_unrealized_pl: AccountUnits,
    /// Unrealised P&L on the long side, in home currency units.
    pub long_unrealized_pl: AccountUnits,
    /// Unrealised P&L on the short side, in home currency units.
    pub short_unrealized_pl: AccountUnits,
    /// Margin currently consumed by the net open position, in home currency
    /// units.
    pub margin_used: AccountUnits,
}

/// Response body for `GET /v3/accounts/{accountID}/positions` and
/// `GET /v3/accounts/{accountID}/openPositions`.
#[derive(Debug)]
pub struct ListPositionsResponse {
    /// The list of positions matching the request.
    pub positions: Vec<Position>,
    /// ID of the most recent transaction on the account.
    pub last_transaction_id: TransactionID,
}

/// Response body for `GET /v3/accounts/{accountID}/positions/{instrument}`.
#[derive(Debug)]
pub struct GetPositionDetailsResponse {
    /// The requested position.
    pub position: Position,
    /// ID of the most recent transaction on the account.
    pub last_transaction_id: TransactionID,
}

/// Request body for `PUT /v3/accounts/{accountID}/positions/{instrument}/close`.
///
/// Specify `"ALL"` to close all units on a side, `"NONE"` to leave it open,
/// or a decimal string (e.g. `"5000"`) to partially close. When both fields
/// are omitted the API defaults to closing all units on both sides.
#[derive(Debug)]
pub struct ClosePositionRequest {
    /// Units of the long side to close. `"ALL"` closes all long units,
    /// `"NONE"` leaves the long side open, or a decimal string (e.g. `"5000"`)
    /// partially closes. Omitted when `None`.
    pub long_units: Option<String>,
    /// Optional client extensions to attach to the market order created to
    /// close the long side. Omitted when `None`.
    pub long_client_extensions: Option<ClientExtensions>,
    /// Units of the short side to close. `"ALL"` closes all short units,
    /// `"NONE"` leaves the short side open, or a decimal string partially
    /// closes. Omitted when `None`.
    pub short_units: Option<String>,
    /// Optional client extensions to attach to the market order created to
    /// close the short side. Omitted when `None`.
    pub short_client_extensions: Option<ClientExtensions>,
}

/// Response body for `PUT /v3/accounts/{accountID}/positions/{instrument}/close`
/// (HTTP 200).
#[derive(Debug)]
pub struct ClosePositionResponse {
    /// The market order transaction created to close the long side, if any.
    pub long_order_create_transaction: Option<MarketOrderTransaction>,
    /// The fill transaction for the long-side close order, if it was filled.
    pub long_order_fill_transaction: Option<Box<OrderFillTransaction>>,
    /// The cancel transaction for the long-side close order, if it was cancelled.
    pub long_order_cancel_transaction: Option<OrderCancelTransaction>,
    /// The market order transaction created to close the short side, if any.
    pub short_order_create_transaction: Option<MarketOrderTransaction>,
    /// The fill transaction for the short-side close order, if it was filled.
    pub short_order_fill_transaction: Option<Box<OrderFillTransaction>>,
    /// The cancel transaction for the short-side close order, if it was cancelled.
    pub short_order_cancel_transaction: Option<OrderCancelTransaction>,
    /// IDs of all transactions related to this close request.
    pub related_transaction_ids: Vec<TransactionID>,
    /// ID of the most recent transaction on the account after this request.
    pub last_transaction_id: TransactionID,
}

/// Error response body for a rejected
/// `PUT /v3/accounts/{accountID}/positions/{instrument}/close` (HTTP 400 or 404).
#[derive(Debug)]
pub struct ClosePositionErrorResponse {
    /// The reject transaction for the market order that would have closed the
    /// long side. `None` when OANDA omits it.
    pub long_order_reject_transaction: Option<MarketOrderRejectTransaction>,
    /// The reject transaction for the market order that would have closed the
    /// short side. `None` when OANDA omits it.
    pub short_order_reject_transaction: Option<MarketOrderRejectTransaction>,
    /// IDs of all transactions related to this request. `None` when OANDA
    /// omits them.
    pub related_transaction_ids: Option<Vec<TransactionID>>,
    /// ID of the most recent transaction on the account. `None` when OANDA
    /// omits it.
    pub last_transaction_id: Option<TransactionID>,
    /// Machine-readable error code. `None` when OANDA omits it.
    pub error_code: Option<String>,
    /// Human-readable description of why the close was rejected.
    pub error_message: String,
}

/// Provides access to the OANDA Position endpoints
/// (`/v3/accounts/{id}/positions/...`).
/// 
/// Each method gives the request of one call on the connection's default
/// account; a missing or blank account ID is refused with
/// [`APIError::InvalidRequest`].
pub struct PositionService<'a> {
    connection: &'a Connection,
}

impl<'a> PositionService<'a> {
    /// Creates a new `PositionService` bound to the given connection.
    pub fn new(connection: &'a Connection) -> (s: Self)
        ensures
            s.connection() == connection,
    {
        PositionService { connection }
    }

    /// The connection the service is bound to.
    pub closed spec fn connection(&self) -> &'a Connection {
        self.connection
    }

    /// Lists all positions on the account: `GET .../positions`.
    pub fn list(&self) -> (r: Result<Endpoint, APIError>)
        ensures
            endpoint_matches(
                r,
                self.connection().base_url,
                account_url_outcome(
                    self.connection().base_url,
                    self.connection().account_id.deep_view(),
                    seq!["positions"@],
                ),
                Seq::empty(),
                Method::Get,
                200,
                RejectRule::NoReject,
            ),
    {
        let url = self.connection.account_url(&path1("positions"));
        endpoint_at(url, Method::Get, 200, RejectRule::NoReject)
    }

    /// Lists the open positions on the account: `GET .../openPositions`.
    pub fn list_open(&self) -> (r: Result<Endpoint, APIError>)
        ensures
            endpoint_matches(
                r,
                self.connection().base_url,
                account_url_outcome(
                    self.connection().base_url,
                    self.connection().account_id.deep_view(),
                    seq!["openPositions"@],
                ),
                Seq::empty(),
                Method::Get,
                200,
                RejectRule::NoReject,
            ),
    {
        let url = self.connection.account_url(&path1("openPositions"));
        endpoint_at(url, Method::Get, 200, RejectRule::NoReject)
    }

    /// Returns the position on `instrument`: `GET .../positions/{instrument}`,
    /// with the instrument name trimmed of surrounding whitespace.
    pub fn get_details(&self, instrument: &InstrumentName) -> (r: Result<Endpoint, APIError>)
        ensures
            endpoint_matches(
                r,
                self.connection().base_url,
                account_url_outcome(
                    self.connection().base_url,
                    self.connection().account_id.deep_view(),
                    seq!["positions"@, trim_ws(instrument@)],
                ),
                Seq::empty(),
                Method::Get,
                200,
                RejectRule::NoReject,
            ),
    {
        let name = trim(instrument.as_str());
        let url = self.connection.account_url(&path2("positions", name.as_str()));
        endpoint_at(url, Method::Get, 200, RejectRule::NoReject)
    }

    /// Closes all or part of a position: `PUT .../positions/{instrument}/close`,
    /// with the instrument name trimmed; a 400 or 404 carries a close-position
    /// reject.
    pub fn close(&self, instrument: &InstrumentName) -> (r: Result<Endpoint, APIError>)
        ensures
            endpoint_matches(
                r,
                self.connection().base_url,
                account_url_outcome(
                    self.connection().base_url,
                    self.connection().account_id.deep_view(),
                    seq!["positions"@, trim_ws(instrument@), "close"@],
                ),
                Seq::empty(),
                Method::Put,
                200,
                RejectRule::PositionClose,
            ),
    {
        let name = trim(instrument.as_str());
        let url = self.connection.account_url(&path3("positions", name.as_str(), "close"));
        endpoint_at(url, Method::Put, 200, RejectRule::PositionClose)
    }
}

impl ClosePositionRequest {
    /// Creates a new request with all fields unset; OANDA then closes all units
    /// on each side.
    pub fn new() -> (r: Self)
        ensures
            r == (ClosePositionRequest { long_units: None, long_client_extensions: None, short_units: None, short_client_extensions: None }),
    {
        ClosePositionRequest { long_units: None, long_client_extensions: None, short_units: None, short_client_extensions: None }
    }

    /// Sets how many long units to close (`"ALL"` or a number).
    pub fn long_units(self, long_units: String) -> (r: Self)
        ensures
            r == (ClosePositionRequest { long_units: Some(long_units), ..self }),
    {
        let mut r = self;
        r.long_units = Some(long_units);
        r
    }

    /// Sets the client extensions of the long-side close order.
    pub fn long_client_extensions(self, long_client_extensions: ClientExtensions) -> (r: Self)
        ensures
            r == (ClosePositionRequest {
                long_client_extensions: Some(long_client_extensions),
                ..self
            }),
    {
        let mut r = self;
        r.long_client_extensions = Some(long_client_extensions);
        r
    }

    /// Sets how many short units to close (`"ALL"` or a number).
    pub fn short_units(self, short_units: String) -> (r: Self)
        ensures
            r == (ClosePositionRequest { short_units: Some(short_units), ..self }),
    {
        let mut r = self;
        r.short_units = Some(short_units);
        r
    }

    /// Sets the client extensions of the short-side close order.
    pub fn short_client_extensions(self, short_client_extensions: ClientExtensions) -> (r: Self)
        ensures
            r == (ClosePositionRequest {
                short_client_extensions: Some(short_client_extensions),
                ..self
            }),
    {
        let mut r = self;
        r.short_client_extensions = Some(short_client_extensions);
        r
    }
}

impl Default for ClosePositionRequest {
    fn default() -> (r: Self)
        ensures
            r == (ClosePositionRequest { long_units: None, long_client_extensions: None, short_units: None, short_client_extensions: None }),
    {
        ClosePositionRequest::new()
    }
}

} // verus!
