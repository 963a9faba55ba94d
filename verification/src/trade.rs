//! Trades, their dynamic state and the trade requests and responses.
use crate::instrument::InstrumentName;
use crate::order::model::{
    GuaranteedStopLossOrder, StopLossOrder, TakeProfitOrder, TrailingStopLossOrder,
};
use crate::pricing::PriceValue;
use crate::primitives::{DecimalNumber, RawJson, Timestamp};
use crate::transaction::details::ClientExtensions;
use crate::transaction::event::{
    MarketOrderRejectTransaction, TradeClientExtensionsModifyRejectTransaction,
    TradeClientExtensionsModifyTransaction,
};
use crate::transaction::types::{AccountUnits, OrderID, TradeID, TransactionID};
use crate::endpoint::{
    endpoint_at, endpoint_matches, path1, path2, path3, Endpoint, Method, RejectRule,
};
use crate::errors::APIError;
use crate::http::{account_url_outcome, Connection};
use vstd::prelude::*;

verus! {

/// A string that uniquely identifies a trade within an account.
///
/// Can be either an OANDA-assigned [`TradeID`] or a client-provided trade ID
/// prefixed with `"@"` (e.g. `"@my-trade-id"`).
pub type TradeSpecifier = String;

/// The lifecycle state of a trade.
#[derive(Debug, Clone, Copy, PartialEq, Eq, Structural)]
pub enum TradeState {
    /// The trade is currently open and has an active market position.
    Open,
    /// The trade has been fully closed and is no longer active.
    Closed,
    /// The trade has been flagged to close as soon as the instrument becomes
    /// tradeable again (e.g. after a market halt).
    CloseWhenTradeable,
}

/// Extends [`TradeState`] with an `All` variant for use as a filter when
/// listing trades.
#[derive(Debug, Clone, Copy, PartialEq, Eq, Structural)]
pub enum TradeStateFilter {
    /// Return only open trades.
    Open,
    /// Return only closed trades.
    Closed,
    /// Return only trades pending close-when-tradeable.
    CloseWhenTradeable,
    /// Return trades in any state.
    All,
}

/// Categorises the profit/loss direction of a trade.
#[derive(Debug, Clone, Copy, PartialEq, Eq, Structural)]
pub enum TradePL {
    /// The trade has a positive (profitable) P&L.
    Positive,
    /// The trade has a negative (loss) P&L.
    Negative,
    /// The trade has neither a gain nor a loss (P&L is zero).
    Zero,
}

/// A full representation of an open or closed trade, including its attached
/// stop-loss, take-profit, and trailing stop-loss orders.
///
/// Returned by `GET /v3/accounts/{accountID}/trades/{tradeSpecifier}` and
/// included in full account detail responses.
#[derive(Debug)]
pub struct Trade {
    /// The trade's unique identifier assigned by OANDA.
    pub id: TradeID,
    /// The instrument being traded (e.g. `"EUR_USD"`).
    pub instrument: InstrumentName,
    /// The price at which the trade was opened.
    pub price: PriceValue,
    /// Timestamp at which the trade was opened.
    pub open_time: Timestamp,
    /// Current lifecycle state of the trade.
    pub state: TradeState,
    /// The number of units traded when the trade was first opened.
    /// Positive = long, negative = short.
    pub initial_units: DecimalNumber,
    /// The margin required to open the trade at its initial size, in home
    /// currency units.
    pub initial_margin_required: AccountUnits,
    /// The number of units currently open. Decreases as partial closes occur.
    /// Zero once the trade is fully closed.
    pub current_units: DecimalNumber,
    /// Cumulative realised profit/loss from partial closes of this trade,
    /// in home currency units.
    pub realized_pl: AccountUnits,
    /// Current unrealised profit/loss based on the live market price,
    /// in home currency units.
    pub unrealized_pl: AccountUnits,
    /// Margin currently consumed by this trade's open units, in home currency units.
    pub margin_used: AccountUnits,
    /// The average price at which units have been closed. `None` if no units
    /// have been closed yet.
    pub average_close_price: Option<PriceValue>,
    /// IDs of the transactions that fully or partially closed this trade.
    pub closing_transaction_ids: Option<Vec<TransactionID>>,
    /// Cumulative financing (swap/rollover) charges or credits applied to
    /// this trade, in home currency units.
    pub financing: AccountUnits,
    /// Cumulative dividend adjustment applied to this trade (for CFDs that
    /// pay dividends), in home currency units.
    pub dividend_adjustment: AccountUnits,
    /// Timestamp at which the trade was fully closed. `None` while open.
    pub close_time: Option<Timestamp>,
    /// Optional client-supplied metadata attached to this trade.
    pub client_extensions: Option<ClientExtensions>,
    /// The take-profit order attached to this trade, if any.
    pub take_profit_order: Option<TakeProfitOrder>,
    /// The stop-loss order attached to this trade, if any.
    pub stop_loss_order: Option<StopLossOrder>,
    /// The guaranteed stop-loss order attached to this trade, if any.
    pub guaranteed_stop_loss_order: Option<GuaranteedStopLossOrder>,
    /// The trailing stop-loss order attached to this trade, if any.
    pub trailing_stop_loss_order: Option<TrailingStopLossOrder>,
}

/// A condensed representation of a trade that references attached orders by
/// ID instead of embedding the full order objects.
///
/// Returned in account-level list responses (e.g. inside [`Account`](crate::account::Account))
/// where embedding full order details would be redundant.
#[derive(Debug)]
pub struct TradeSummary {
    /// The trade's unique identifier assigned by OANDA.
    pub id: TradeID,
    /// The instrument being traded (e.g. `"EUR_USD"`).
    pub instrument: InstrumentName,
    /// The price at which the trade was opened.
    pub price: PriceValue,
    /// Timestamp at which the trade was opened.
    pub open_time: Timestamp,
    /// Current lifecycle state of the trade.
    pub state: TradeState,
    /// The number of units traded when the trade was first opened.
    /// Positive = long, negative = short.
    pub initial_units: DecimalNumber,
    /// The margin required to open the trade at its initial size, in home
    /// currency units.
    pub initial_margin_required: AccountUnits,
    /// The number of units currently open.
    pub current_units: DecimalNumber,
    /// Cumulative realised profit/loss from partial closes, in home currency units.
    pub realized_pl: AccountUnits,
    /// Current unrealised profit/loss, in home currency units.
    pub unrealized_pl: AccountUnits,
    /// Margin currently consumed by this trade's open units, in home currency units.
    pub margin_used: AccountUnits,
    /// Average price at which units have been closed. `None` if no units have
    /// been closed yet.
    pub average_close_price: Option<PriceValue>,
    /// IDs of the transactions that fully or partially closed this trade.
    pub closing_transaction_ids: Option<Vec<TransactionID>>,
    /// Cumulative financing charges or credits applied to this trade, in home
    /// currency units.
    pub financing: AccountUnits,
    /// Cumulative dividend adjustment applied to this trade, in home currency units.
    pub dividend_adjustment: AccountUnits,
    /// Timestamp at which the trade was fully closed. `None` while open.
    pub close_time: Option<Timestamp>,
    /// Optional client-supplied metadata attached to this trade.
    pub client_extensions: Option<ClientExtensions>,
    /// ID of the take-profit order attached to this trade, if any.
    pub take_profit_order_id: Option<OrderID>,
    /// ID of the stop-loss order attached to this trade, if any.
    pub stop_loss_order_id: Option<OrderID>,
    /// ID of the guaranteed stop-loss order attached to this trade, if any.
    pub guaranteed_stop_loss_order_id: Option<OrderID>,
    /// ID of the trailing stop-loss order attached to this trade, if any.
    pub trailing_stop_loss_order_id: Option<OrderID>,
}

/// The price-dependent (dynamic) state of an open trade, returned as part of
/// [`AccountChangesState`](crate::account::AccountChangesState).
///
/// Contains only the fields that change as the market moves; all static trade
/// fields are in [`Trade`] or [`TradeSummary`].
#[derive(Debug)]
pub struct CalculatedTradeState {
    /// The trade's unique identifier.
    pub id: TradeID,
    /// Current unrealised profit/loss based on the live market price,
    /// in home currency units.
    pub unrealized_pl: AccountUnits,
    /// Margin currently consumed by this trade's open units, in home currency units.
    pub margin_used: AccountUnits,
}

/// Request body for `PUT /v3/accounts/{accountID}/trades/{tradeSpecifier}/close`.
///
/// Omitting `units` closes the entire trade. Supply a decimal string to
/// partially close only that many units.
#[derive(Debug)]
pub struct CloseTradeRequest {
    /// Number of units to close. `None` closes all open units. A decimal
    /// string (e.g. `"5000"`) partially closes the trade. Omitted when `None`.
    pub units: Option<String>,
}

/// Response body for `GET /v3/accounts/{accountID}/trades` and
/// `GET /v3/accounts/{accountID}/openTrades`.
#[derive(Debug)]
pub struct ListTradesResponse {
    /// The list of trades matching the request.
    pub trades: Vec<Trade>,
    /// ID of the most recent transaction on the account.
    pub last_transaction_id: TransactionID,
}

/// Response body for `GET /v3/accounts/{accountID}/trades/{tradeSpecifier}`.
#[derive(Debug)]
pub struct GetTradeDetailsResponse {
    /// The requested trade.
    pub trade: Trade,
    /// ID of the most recent transaction on the account.
    pub last_transaction_id: TransactionID,
}

/// Response body for `PUT /v3/accounts/{accountID}/trades/{tradeSpecifier}/close`
/// (HTTP 200).
///
/// Transaction fields are raw JSON values because the OANDA API returns a
/// polymorphic union of transaction sub-types.
#[derive(Debug)]
pub struct CloseTradeResponse {
    /// The order-fill transaction that recorded the trade closure.
    pub order_fill_transaction: Option<RawJson>,
    /// The order-cancel transaction, present when the close order itself was
    /// cancelled (e.g. the trade was already closed).
    pub order_cancel_transaction: Option<RawJson>,
    /// IDs of all transactions related to this close request.
    pub related_transaction_ids: Option<Vec<TransactionID>>,
    /// ID of the most recent transaction on the account after this request.
    pub last_transaction_id: Option<TransactionID>,
}

/// Request body for
/// `PUT /v3/accounts/{accountID}/trades/{tradeSpecifier}/clientExtensions`.
///
/// Wraps a [`ClientExtensions`] value to match the JSON envelope the OANDA API
/// expects (`{"clientExtensions": {...}}`).
#[derive(Debug)]
pub struct UpdateClientExtensionsRequest {
    /// The new client extensions to apply to the trade.
    pub client_extensions: ClientExtensions,
}

/// Response body for a successful
/// `PUT /v3/accounts/{accountID}/trades/{tradeSpecifier}/clientExtensions`
/// (HTTP 200).
#[derive(Debug)]
pub struct UpdateTradeClientExtensionsResponse {
    /// The transaction that recorded the client-extensions change on the trade.
    pub trade_client_extensions_modify_transaction: TradeClientExtensionsModifyTransaction,
    /// IDs of all transactions created by this request.
    pub related_transaction_ids: Vec<TransactionID>,
    /// ID of the most recent transaction on the account after this request.
    pub last_transaction_id: TransactionID,
}

/// Error response body for a failed
/// `PUT /v3/accounts/{accountID}/trades/{tradeSpecifier}/clientExtensions`
/// (HTTP 400 or 404).
///
/// Returned when the update is rejected — for example, if the trade specifier
/// does not match any trade on the account.
#[derive(Debug)]
pub struct UpdateTradeClientExtensionsErrorResponse {
    /// The reject transaction that recorded why the modification was refused.
    /// `None` when OANDA omits it.
    pub trade_client_extensions_modify_reject_transaction: Option<TradeClientExtensionsModifyRejectTransaction>,
    /// ID of the most recent transaction on the account. `None` when OANDA
    /// omits it.
    pub last_transaction_id: Option<TransactionID>,
    /// IDs of all transactions related to this (failed) request. `None` when
    /// OANDA omits them.
    pub related_transaction_ids: Option<Vec<TransactionID>>,
    /// Machine-readable error code. `None` when OANDA omits it.
    pub error_code: Option<String>,
    /// Human-readable description of the error.
    pub error_message: String,
}

/// Error response body for a rejected
/// `PUT /v3/accounts/{accountID}/trades/{tradeSpecifier}/close` (HTTP 400 or 404).
#[derive(Debug)]
pub struct CloseTradeErrorResponse {
    /// The reject transaction for the market order that would have closed the
    /// trade. `None` when OANDA omits it.
    pub order_reject_transaction: Option<MarketOrderRejectTransaction>,
    /// IDs of all transactions related to this request. `None` when OANDA
    /// omits them.
    pub related_transaction_ids: Option<Vec<TransactionID>>,
    /// ID of the most recent transaction on the account. `None` when OANDA
    /// omits it.
    pub last_transaction_id: Option<TransactionID>,
    /// Machine-readable error code. `None` when OANDA omits it.
    pub error_code: Option<String>,
    /// Human-readable description of why the close was rejected.
    pub error_message: String,
}

/// Provides access to the OANDA Trade endpoints (`/v3/accounts/{id}/trades/...`).
/// 
/// Each method gives the request of one call on the connection's default
/// account; a missing or blank account ID, or a specifier that cannot be a
/// path segment, is refused with [`APIError::InvalidRequest`].
pub struct TradeService<'a> {
    connection: &'a Connection,
}

impl<'a> TradeService<'a> {
    /// Creates a new `TradeService` bound to the given connection.
    pub fn new(connection: &'a Connection) -> (s: Self)
        ensures
            s.connection() == connection,
    {
        TradeService { connection }
    }

    /// The connection the service is bound to.
    pub closed spec fn connection(&self) -> &'a Connection {
        self.connection
    }

    /// Lists all trades on the account: `GET .../trades`.
    pub fn list(&self) -> (r: Result<Endpoint, APIError>)
        ensures
            endpoint_matches(
                r,
                self.connection().base_url,
                account_url_outcome(
                    self.connection().base_url,
                    self.connection().account_id.deep_view(),
                    seq!["trades"@],
                ),
                Seq::empty(),
                Method::Get,
                200,
                RejectRule::NoReject,
            ),
    {
        let url = self.connection.account_url(&path1("trades"));
        endpoint_at(url, Method::Get, 200, RejectRule::NoReject)
    }

    /// Lists the open trades on the account: `GET .../openTrades`.
    pub fn list_open(&self) -> (r: Result<Endpoint, APIError>)
        ensures
            endpoint_matches(
                r,
                self.connection().base_url,
                account_url_outcome(
                    self.connection().base_url,
                    self.connection().account_id.deep_view(),
                    seq!["openTrades"@],
                ),
                Seq::empty(),
                Method::Get,
                200,
                RejectRule::NoReject,
            ),
    {
        let url = self.connection.account_url(&path1("openTrades"));
        endpoint_at(url, Method::Get, 200, RejectRule::NoReject)
    }

    /// Returns the details of a trade: `GET .../trades/{specifier}`.
    pub fn get_details(&self, specifier: &TradeSpecifier) -> (r: Result<Endpoint, APIError>)
        ensures
            endpoint_matches(
                r,
                self.connection().base_url,
                account_url_outcome(
                    self.connection().base_url,
                    self.connection().account_id.deep_view(),
                    seq!["trades"@, specifier@],
                ),
                Seq::empty(),
                Method::Get,
                200,
                RejectRule::NoReject,
            ),
    {
        let url = self.connection.account_url(&path2("trades", specifier.as_str()));
        endpoint_at(url, Method::Get, 200, RejectRule::NoReject)
    }

    /// Closes a trade: `PUT .../trades/{specifier}/close`; a 400 or 404
    /// carries a close-trade reject.
    pub fn close(&self, specifier: &TradeSpecifier) -> (r: Result<Endpoint, APIError>)
        ensures
            endpoint_matches(
                r,
                self.connection().base_url,
                account_url_outcome(
                    self.connection().base_url,
                    self.connection().account_id.deep_view(),
                    seq!["trades"@, specifier@, "close"@],
                ),
                Seq::empty(),
                Method::Put,
                200,
                RejectRule::TradeClose,
            ),
    {
        let url = self.connection.account_url(&path3("trades", specifier.as_str(), "close"));
        endpoint_at(url, Method::Put, 200, RejectRule::TradeClose)
    }

    /// Replaces the client extensions of a trade:
    /// `PUT .../trades/{specifier}/clientExtensions`; a 400 or 404 carries
    /// their reject.
    pub fn update_client_extensions(
        &self,
        specifier: &TradeSpecifier,
    ) -> (r: Result<Endpoint, APIError>)
        ensures
            endpoint_matches(
                r,
                self.connection().base_url,
                account_url_outcome(
                    self.connection().base_url,
                    self.connection().account_id.deep_view(),
                    seq!["trades"@, specifier@, "clientExtensions"@],
                ),
                Seq::empty(),
                Method::Put,
                200,
                RejectRule::TradeClientExtensions,
            ),
    {
        let url = self.connection.account_url(&path3("trades", specifier.as_str(), "clientExtensions"));
        endpoint_at(url, Method::Put, 200, RejectRule::TradeClientExtensions)
    }
}

impl CloseTradeRequest {
    /// Creates a new request that will close all open units of the trade.
    pub fn new() -> (r: Self)
        ensures
            r == (CloseTradeRequest { units: None }),
    {
        CloseTradeRequest { units: None }
    }

    /// Closes only this many units of the trade.
    pub fn units(self, units: String) -> (r: Self)
        ensures
            r == (CloseTradeRequest { units: Some(units), ..self }),
    {
        let mut r = self;
        r.units = Some(units);
        r
    }
}

} // verus!
