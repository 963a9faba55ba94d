//! Every transaction that an account records.
use crate::account::AccountID;
use crate::instrument::InstrumentName;
use crate::order::model::{OrderPositionFill, OrderTriggerCondition, TimeInForce};
use crate::pricing::{ClientPrice, PriceValue};
use crate::primitives::{Currency, DecimalNumber, HomeConversionFactors, Timestamp};
use crate::transaction::details::{
    ClientExtensions, GuaranteedStopLossDetails, MarketOrderDelayedTradeClose,
    MarketOrderMarginCloseout, MarketOrderPositionCloseout, MarketOrderTradeClose,
    OpenTradeDividendAdjustment, PositionFinancing, StopLossDetails, TakeProfitDetails, TradeOpen,
    TradeReduce, TrailingStopLossDetails, TransactionHeartbeat,
};
use crate::transaction::types::{
    AccountUnits, ClientID, FixedPriceOrderReason, FundingReason, GuaranteedStopLossOrderReason,
    LimitOrderReason, MarketIfTouchedOrderReason, MarketOrderReason, OrderCancelReason,
    OrderFillReason, OrderID, RequestID, StopLossOrderReason, StopOrderReason,
    TakeProfitOrderReason, TradeID, TrailingStopLossOrderReason, TransactionID,
    TransactionRejectReason,
};
use crate::text::copy_string;
use vstd::prelude::*;

verus! {

/// A tagged union of every transaction type that the OANDA API can return.
///
/// Deserialized from the `"type"` field in the JSON payload. Use this when
/// handling generic transaction streams or history endpoints where the exact
/// sub-type is not known in advance.
#[derive(Debug)]
pub enum Transaction {
    OrderFillTransaction(Box<OrderFillTransaction>),
    OrderCancelTransaction(OrderCancelTransaction),
    OrderCancelRejectTransaction(OrderCancelRejectTransaction),
    OrderClientExtensionsModifyTransaction(OrderClientExtensionsModifyTransaction),
    OrderClientExtensionsModifyRejectTransaction(OrderClientExtensionsModifyRejectTransaction),
    CreateTransaction(CreateTransaction),
    CloseTransaction(CloseTransaction),
    ReopenTransaction(ReopenTransaction),
    ClientConfigureTransaction(ClientConfigureTransaction),
    ClientConfigureRejectTransaction(ClientConfigureRejectTransaction),
    TransferFundsTransaction(TransferFundsTransaction),
    TransferFundsRejectTransaction(TransferFundsRejectTransaction),
    MarketOrderTransaction(MarketOrderTransaction),
    MarketOrderRejectTransaction(MarketOrderRejectTransaction),
    FixedPriceOrderTransaction(FixedPriceOrderTransaction),
    LimitOrderTransaction(LimitOrderTransaction),
    LimitOrderRejectTransaction(LimitOrderRejectTransaction),
    StopOrderTransaction(StopOrderTransaction),
    StopOrderRejectTransaction(StopOrderRejectTransaction),
    MarketIfTouchedOrderTransaction(MarketIfTouchedOrderTransaction),
    MarketIfTouchedOrderRejectTransaction(MarketIfTouchedOrderRejectTransaction),
    TakeProfitOrderTransaction(TakeProfitOrderTransaction),
    TakeProfitOrderRejectTransaction(TakeProfitOrderRejectTransaction),
    StopLossOrderTransaction(StopLossOrderTransaction),
    StopLossOrderRejectTransaction(StopLossOrderRejectTransaction),
    GuaranteedStopLossOrderTransaction(GuaranteedStopLossOrderTransaction),
    GuaranteedStopLossOrderRejectTransaction(GuaranteedStopLossOrderRejectTransaction),
    TrailingStopLossOrderTransaction(TrailingStopLossOrderTransaction),
    TrailingStopLossOrderRejectTransaction(TrailingStopLossOrderRejectTransaction),
    TradeClientExtensionsModifyTransaction(TradeClientExtensionsModifyTransaction),
    TradeClientExtensionsModifyRejectTransaction(TradeClientExtensionsModifyRejectTransaction),
    MarginCallEnterTransaction(MarginCallEnterTransaction),
    MarginCallExtendTransaction(MarginCallExtendTransaction),
    MarginCallExitTransaction(MarginCallExitTransaction),
    DelayedTradeClosureTransaction(DelayedTradeClosureTransaction),
    DailyFinancingTransaction(DailyFinancingTransaction),
    DividendAdjustmentTransaction(DividendAdjustmentTransaction),
    ResetResettablePLTransaction(ResetResettablePLTransaction),
}

/// A tagged union covering only the transaction types that create a new order.
///
/// Used in order-creation responses where OANDA always returns one of these
/// sub-types (never a cancel, fill, etc.).
#[derive(Debug)]
pub enum OrderCreateTransaction {
    MarketOrderTransaction(MarketOrderTransaction),
    FixedPriceOrderTransaction(FixedPriceOrderTransaction),
    LimitOrderTransaction(LimitOrderTransaction),
    StopOrderTransaction(StopOrderTransaction),
    MarketIfTouchedOrderTransaction(MarketIfTouchedOrderTransaction),
    TakeProfitOrderTransaction(TakeProfitOrderTransaction),
    StopLossOrderTransaction(StopLossOrderTransaction),
    GuaranteedStopLossOrderTransaction(GuaranteedStopLossOrderTransaction),
    TrailingStopLossOrderTransaction(TrailingStopLossOrderTransaction),
}

/// A tagged union of all transaction types that record a rejected order-creation attempt.
///
/// Returned in the error body when an order request is refused by OANDA
/// (e.g. insufficient margin, invalid parameters). Each variant carries a
/// `reject_reason` explaining why the order was not accepted.
#[derive(Debug)]
pub enum OrderCreateRejectTransaction {
    MarketOrderRejectTransaction(MarketOrderRejectTransaction),
    LimitOrderRejectTransaction(LimitOrderRejectTransaction),
    StopOrderRejectTransaction(StopOrderRejectTransaction),
    MarketIfTouchedOrderRejectTransaction(MarketIfTouchedOrderRejectTransaction),
    TakeProfitOrderRejectTransaction(TakeProfitOrderRejectTransaction),
    StopLossOrderRejectTransaction(StopLossOrderRejectTransaction),
    GuaranteedStopLossOrderRejectTransaction(GuaranteedStopLossOrderRejectTransaction),
    TrailingStopLossOrderRejectTransaction(TrailingStopLossOrderRejectTransaction),
}

/// Transaction recorded when a new OANDA account is created.
///
/// Contains the initial settings for the account such as the home currency,
/// division, and site identifiers assigned at creation time.
#[derive(Debug)]
pub struct CreateTransaction {
    /// Unique transaction ID assigned by OANDA.
    pub id: TransactionID,
    /// Timestamp at which the transaction was created.
    pub time: Timestamp,
    /// OANDA internal user ID that initiated the transaction.
    pub user_id: i64,
    /// The account this transaction belongs to.
    pub account_id: AccountID,
    /// ID of the batch this transaction is part of (same as `id` for single-transaction requests).
    pub batch_id: TransactionID,
    /// ID of the originating HTTP request, if provided by the client.
    pub request_id: Option<RequestID>,
    /// OANDA division that owns the account.
    pub division_id: i64,
    /// OANDA site that the account was created on.
    pub site_id: i64,
    /// OANDA user ID of the account owner.
    pub account_user_id: i64,
    /// OANDA account number (numeric form of the account ID).
    pub account_number: i64,
    /// Home currency of the account (e.g. `"USD"`).
    pub home_currency: Currency,
}

/// Transaction recorded when an OANDA account is closed.
#[derive(Debug)]
pub struct CloseTransaction {
    pub id: TransactionID,
    pub time: Timestamp,
    pub user_id: i64,
    pub account_id: AccountID,
    pub batch_id: TransactionID,
    pub request_id: Option<RequestID>,
}

/// Transaction recorded when a previously closed account is reopened.
#[derive(Debug)]
pub struct ReopenTransaction {
    pub id: TransactionID,
    pub time: Timestamp,
    pub user_id: i64,
    pub account_id: AccountID,
    pub batch_id: TransactionID,
    pub request_id: Option<RequestID>,
}

/// Transaction recorded when an account's configuration is changed by the client
/// (e.g. updating the alias or margin rate).
#[derive(Debug)]
pub struct ClientConfigureTransaction {
    pub id: TransactionID,
    pub time: Timestamp,
    pub user_id: i64,
    pub account_id: AccountID,
    pub batch_id: TransactionID,
    pub request_id: Option<RequestID>,
    /// New display name set for the account, if changed.
    pub alias: Option<String>,
    /// New margin rate applied to the account, if changed.
    pub margin_rate: Option<DecimalNumber>,
}

/// Transaction recorded when an account configuration change is rejected.
/// Transaction recorded when an account configuration change is rejected.
#[derive(Debug)]
pub struct ClientConfigureRejectTransaction {
    pub id: TransactionID,
    pub time: Timestamp,
    pub user_id: i64,
    pub account_id: AccountID,
    pub batch_id: TransactionID,
    pub request_id: Option<RequestID>,
    pub alias: Option<String>,
    pub margin_rate: Option<DecimalNumber>,
    /// Reason why the configuration change was rejected.
    pub reject_reason: TransactionRejectReason,
}

/// Transaction recorded when funds are deposited into or withdrawn from an account.
#[derive(Debug)]
pub struct TransferFundsTransaction {
    pub id: TransactionID,
    pub time: Timestamp,
    pub user_id: i64,
    pub account_id: AccountID,
    pub batch_id: TransactionID,
    pub request_id: Option<RequestID>,
    /// Amount transferred, in home currency units. Positive = deposit, negative = withdrawal.
    pub amount: AccountUnits,
    /// Why the transfer occurred.
    pub funding_reason: FundingReason,
    /// Optional free-text comment attached to the transfer.
    pub comment: Option<String>,
    /// Account balance after the transfer, in home currency units.
    pub account_balance: AccountUnits,
}

/// Transaction recorded when a funds transfer request is rejected.
/// Transaction recorded when a funds transfer request is rejected.
#[derive(Debug)]
pub struct TransferFundsRejectTransaction {
    pub id: TransactionID,
    pub time: Timestamp,
    pub user_id: i64,
    pub account_id: AccountID,
    pub batch_id: TransactionID,
    pub request_id: Option<RequestID>,
    pub amount: AccountUnits,
    pub funding_reason: FundingReason,
    pub comment: Option<String>,
    /// Reason why the transfer was rejected.
    pub reject_reason: TransactionRejectReason,
}

/// Transaction recorded when a market order is accepted and submitted to the market.
///
/// A market order fills immediately at the current market price. This transaction
/// is created before the corresponding [`OrderFillTransaction`].
#[derive(Debug)]
pub struct MarketOrderTransaction {
    pub id: TransactionID,
    pub time: Timestamp,
    pub user_id: i64,
    pub account_id: AccountID,
    pub batch_id: TransactionID,
    pub request_id: Option<RequestID>,
    pub instrument: InstrumentName,
    pub units: DecimalNumber,
    pub time_in_force: TimeInForce,
    pub price_bound: Option<PriceValue>,
    pub position_fill: OrderPositionFill,
    pub trade_close: Option<MarketOrderTradeClose>,
    pub long_position_closeout: Option<MarketOrderPositionCloseout>,
    pub short_position_closeout: Option<MarketOrderPositionCloseout>,
    pub margin_closeout: Option<MarketOrderMarginCloseout>,
    pub delayed_trade_close: Option<MarketOrderDelayedTradeClose>,
    pub reason: MarketOrderReason,
    pub client_extensions: Option<ClientExtensions>,
    pub take_profit_on_fill: Option<TakeProfitDetails>,
    pub stop_loss_on_fill: Option<StopLossDetails>,
    pub trailing_stop_loss_on_fill: Option<TrailingStopLossDetails>,
    pub guaranteed_stop_loss_on_fill: Option<GuaranteedStopLossDetails>,
    pub trade_client_extensions: Option<ClientExtensions>,
}

/// Transaction recorded when a market order request is rejected.
#[derive(Debug)]
pub struct MarketOrderRejectTransaction {
    pub id: TransactionID,
    pub time: Timestamp,
    pub user_id: i64,
    pub account_id: AccountID,
    pub batch_id: TransactionID,
    pub request_id: Option<RequestID>,
    pub instrument: InstrumentName,
    pub units: Option<DecimalNumber>,
    pub time_in_force: TimeInForce,
    pub price_bound: Option<PriceValue>,
    pub position_fill: OrderPositionFill,
    pub trade_close: Option<MarketOrderTradeClose>,
    pub long_position_closeout: Option<MarketOrderPositionCloseout>,
    pub short_position_closeout: Option<MarketOrderPositionCloseout>,
    pub margin_closeout: Option<MarketOrderMarginCloseout>,
    pub delayed_trade_close: Option<MarketOrderDelayedTradeClose>,
    pub reason: MarketOrderReason,
    pub client_extensions: Option<ClientExtensions>,
    pub take_profit_on_fill: Option<TakeProfitDetails>,
    pub stop_loss_on_fill: Option<StopLossDetails>,
    pub trailing_stop_loss_on_fill: Option<TrailingStopLossDetails>,
    pub guaranteed_stop_loss_on_fill: Option<GuaranteedStopLossDetails>,
    pub trade_client_extensions: Option<ClientExtensions>,
    pub reject_reason: Option<TransactionRejectReason>,
}

/// Transaction recorded when a fixed-price order is created.
///
/// Fixed-price orders are created by OANDA internally (e.g. during account
/// migrations) and are not directly placeable by clients.
#[derive(Debug)]
pub struct FixedPriceOrderTransaction {
    pub id: TransactionID,
    pub time: Timestamp,
    pub user_id: i64,
    pub account_id: AccountID,
    pub batch_id: TransactionID,
    pub request_id: Option<RequestID>,
    pub instrument: InstrumentName,
    pub units: DecimalNumber,
    pub price: PriceValue,
    pub position_fill: OrderPositionFill,
    pub trade_state: Option<String>,
    pub reason: Option<FixedPriceOrderReason>,
    pub client_extensions: Option<ClientExtensions>,
    pub take_profit_on_fill: Option<TakeProfitDetails>,
    pub stop_loss_on_fill: Option<StopLossDetails>,
    pub trailing_stop_loss_on_fill: Option<TrailingStopLossDetails>,
    pub guaranteed_stop_loss_on_fill: Option<GuaranteedStopLossDetails>,
    pub trade_client_extensions: Option<ClientExtensions>,
}

/// Transaction recorded when a limit order is created or replaces an existing order.
#[derive(Debug)]
pub struct LimitOrderTransaction {
    pub id: TransactionID,
    pub time: Timestamp,
    pub user_id: i64,
    pub account_id: AccountID,
    pub batch_id: TransactionID,
    pub request_id: Option<RequestID>,
    pub instrument: InstrumentName,
    pub units: DecimalNumber,
    pub price: PriceValue,
    pub time_in_force: TimeInForce,
    pub gtd_time: Option<Timestamp>,
    pub position_fill: OrderPositionFill,
    pub trigger_condition: OrderTriggerCondition,
    pub reason: LimitOrderReason,
    pub client_extensions: Option<ClientExtensions>,
    pub take_profit_on_fill: Option<TakeProfitDetails>,
    pub stop_loss_on_fill: Option<StopLossDetails>,
    pub trailing_stop_loss_on_fill: Option<TrailingStopLossDetails>,
    pub guaranteed_stop_loss_on_fill: Option<GuaranteedStopLossDetails>,
    pub trade_client_extensions: Option<ClientExtensions>,
    pub replaces_order_id: Option<OrderID>,
    pub cancelling_transaction_id: Option<TransactionID>,
}

/// Transaction recorded when a limit order request is rejected.
#[derive(Debug)]
pub struct LimitOrderRejectTransaction {
    pub id: TransactionID,
    pub time: Timestamp,
    pub user_id: i64,
    pub account_id: AccountID,
    pub batch_id: TransactionID,
    pub request_id: Option<RequestID>,
    pub instrument: InstrumentName,
    pub units: DecimalNumber,
    pub price: PriceValue,
    pub time_in_force: TimeInForce,
    pub gtd_time: Option<Timestamp>,
    pub position_fill: OrderPositionFill,
    pub trigger_condition: OrderTriggerCondition,
    pub reason: LimitOrderReason,
    pub client_extensions: Option<ClientExtensions>,
    pub take_profit_on_fill: Option<TakeProfitDetails>,
    pub stop_loss_on_fill: Option<StopLossDetails>,
    pub trailing_stop_loss_on_fill: Option<TrailingStopLossDetails>,
    pub guaranteed_stop_loss_on_fill: Option<GuaranteedStopLossDetails>,
    pub trade_client_extensions: Option<ClientExtensions>,
    pub replaces_order_id: Option<OrderID>,
    pub cancelling_transaction_id: Option<TransactionID>,
    pub intended_replaces_order_id: Option<OrderID>,
    pub reject_reason: TransactionRejectReason,
}

/// Transaction recorded when a stop order is created or replaces an existing order.
#[derive(Debug)]
pub struct StopOrderTransaction {
    pub id: TransactionID,
    pub time: Timestamp,
    pub user_id: i64,
    pub account_id: AccountID,
    pub batch_id: TransactionID,
    pub request_id: Option<RequestID>,
    pub instrument: InstrumentName,
    pub units: DecimalNumber,
    pub price: PriceValue,
    pub price_bound: Option<PriceValue>,
    pub time_in_force: TimeInForce,
    pub gtd_time: Option<Timestamp>,
    pub position_fill: OrderPositionFill,
    pub trigger_condition: OrderTriggerCondition,
    pub reason: StopOrderReason,
    pub client_extensions: Option<ClientExtensions>,
    pub take_profit_on_fill: Option<TakeProfitDetails>,
    pub stop_loss_on_fill: Option<StopLossDetails>,
    pub trailing_stop_loss_on_fill: Option<TrailingStopLossDetails>,
    pub guaranteed_stop_loss_on_fill: Option<GuaranteedStopLossDetails>,
    pub trade_client_extensions: Option<ClientExtensions>,
    pub replaces_order_id: Option<OrderID>,
    pub cancelling_transaction_id: Option<TransactionID>,
}

/// Transaction recorded when a stop order request is rejected.
#[derive(Debug)]
pub struct StopOrderRejectTransaction {
    pub id: TransactionID,
    pub time: Timestamp,
    pub user_id: i64,
    pub account_id: AccountID,
    pub batch_id: TransactionID,
    pub request_id: Option<RequestID>,
    pub instrument: InstrumentName,
    pub units: DecimalNumber,
    pub price: PriceValue,
    pub price_bound: Option<PriceValue>,
    pub time_in_force: TimeInForce,
    pub gtd_time: Option<Timestamp>,
    pub position_fill: OrderPositionFill,
    pub trigger_condition: OrderTriggerCondition,
    pub reason: StopOrderReason,
    pub client_extensions: Option<ClientExtensions>,
    pub take_profit_on_fill: Option<TakeProfitDetails>,
    pub stop_loss_on_fill: Option<StopLossDetails>,
    pub trailing_stop_loss_on_fill: Option<TrailingStopLossDetails>,
    pub guaranteed_stop_loss_on_fill: Option<GuaranteedStopLossDetails>,
    pub trade_client_extensions: Option<ClientExtensions>,
    pub replaces_order_id: Option<OrderID>,
    pub cancelling_transaction_id: Option<TransactionID>,
    pub intended_replaces_order_id: Option<OrderID>,
    pub reject_reason: TransactionRejectReason,
}

/// Transaction recorded when a market-if-touched (MIT) order is created or replaces an existing order.
///
/// A MIT order becomes a market order once the instrument price crosses the specified trigger price.
#[derive(Debug)]
pub struct MarketIfTouchedOrderTransaction {
    pub id: TransactionID,
    pub time: Timestamp,
    pub user_id: i64,
    pub account_id: AccountID,
    pub batch_id: TransactionID,
    pub request_id: Option<RequestID>,
    pub instrument: InstrumentName,
    pub units: DecimalNumber,
    pub price: PriceValue,
    pub price_bound: Option<PriceValue>,
    pub time_in_force: TimeInForce,
    pub gtd_time: Option<Timestamp>,
    pub position_fill: OrderPositionFill,
    pub trigger_condition: OrderTriggerCondition,
    pub reason: MarketIfTouchedOrderReason,
    pub client_extensions: Option<ClientExtensions>,
    pub take_profit_on_fill: Option<TakeProfitDetails>,
    pub stop_loss_on_fill: Option<StopLossDetails>,
    pub trailing_stop_loss_on_fill: Option<TrailingStopLossDetails>,
    pub guaranteed_stop_loss_on_fill: Option<GuaranteedStopLossDetails>,
    pub trade_client_extensions: Option<ClientExtensions>,
    pub replaces_order_id: Option<OrderID>,
    pub cancelling_transaction_id: Option<TransactionID>,
}

/// Transaction recorded when a market-if-touched order request is rejected.
#[derive(Debug)]
pub struct MarketIfTouchedOrderRejectTransaction {
    pub id: TransactionID,
    pub time: Timestamp,
    pub user_id: i64,
    pub account_id: AccountID,
    pub batch_id: TransactionID,
    pub request_id: Option<RequestID>,
    pub instrument: InstrumentName,
    pub units: DecimalNumber,
    pub price: PriceValue,
    pub price_bound: Option<PriceValue>,
    pub time_in_force: TimeInForce,
    pub gtd_time: Option<Timestamp>,
    pub position_fill: OrderPositionFill,
    pub trigger_condition: OrderTriggerCondition,
    pub reason: MarketIfTouchedOrderReason,
    pub client_extensions: Option<ClientExtensions>,
    pub take_profit_on_fill: Option<TakeProfitDetails>,
    pub stop_loss_on_fill: Option<StopLossDetails>,
    pub trailing_stop_loss_on_fill: Option<TrailingStopLossDetails>,
    pub guaranteed_stop_loss_on_fill: Option<GuaranteedStopLossDetails>,
    pub trade_client_extensions: Option<ClientExtensions>,
    pub replaces_order_id: Option<OrderID>,
    pub cancelling_transaction_id: Option<TransactionID>,
    pub intended_replaces_order_id: Option<OrderID>,
    pub reject_reason: TransactionRejectReason,
}

/// Transaction recorded when a take-profit order is attached to or created for a trade.
#[derive(Debug)]
pub struct TakeProfitOrderTransaction {
    pub id: TransactionID,
    pub time: Timestamp,
    pub user_id: i64,
    pub account_id: AccountID,
    pub batch_id: TransactionID,
    pub request_id: Option<RequestID>,
    pub trade_id: TradeID,
    pub client_trade_id: Option<ClientID>,
    pub price: PriceValue,
    pub time_in_force: TimeInForce,
    pub gtd_time: Option<Timestamp>,
    pub trigger_condition: OrderTriggerCondition,
    pub reason: TakeProfitOrderReason,
    pub client_extensions: Option<ClientExtensions>,
    pub order_fill_transaction_id: Option<TransactionID>,
    pub replaces_order_id: Option<OrderID>,
    pub cancelling_transaction_id: Option<TransactionID>,
}

/// Transaction recorded when a take-profit order request is rejected.
#[derive(Debug)]
pub struct TakeProfitOrderRejectTransaction {
    pub id: TransactionID,
    pub time: Timestamp,
    pub user_id: i64,
    pub account_id: AccountID,
    pub batch_id: TransactionID,
    pub request_id: Option<RequestID>,
    pub trade_id: TradeID,
    pub client_trade_id: Option<ClientID>,
    pub price: PriceValue,
    pub time_in_force: TimeInForce,
    pub gtd_time: Option<Timestamp>,
    pub trigger_condition: OrderTriggerCondition,
    pub reason: TakeProfitOrderReason,
    pub client_extensions: Option<ClientExtensions>,
    pub order_fill_transaction_id: Option<TransactionID>,
    pub replaces_order_id: Option<OrderID>,
    pub cancelling_transaction_id: Option<TransactionID>,
    pub intended_replaces_order_id: Option<OrderID>,
    pub reject_reason: TransactionRejectReason,
}

/// Transaction recorded when a stop-loss order is attached to or created for a trade.
#[derive(Debug)]
pub struct StopLossOrderTransaction {
    pub id: TransactionID,
    pub time: Timestamp,
    pub user_id: i64,
    pub account_id: AccountID,
    pub batch_id: TransactionID,
    pub request_id: Option<RequestID>,
    pub trade_id: TradeID,
    pub client_trade_id: Option<ClientID>,
    pub price: PriceValue,
    pub distance: Option<DecimalNumber>,
    pub time_in_force: TimeInForce,
    pub gtd_time: Option<Timestamp>,
    pub trigger_condition: OrderTriggerCondition,
    pub reason: StopLossOrderReason,
    pub client_extensions: Option<ClientExtensions>,
    pub order_fill_transaction_id: Option<TransactionID>,
    pub replaces_order_id: Option<OrderID>,
    pub cancelling_transaction_id: Option<TransactionID>,
}

/// Transaction recorded when a stop-loss order request is rejected.
#[derive(Debug)]
pub struct StopLossOrderRejectTransaction {
    pub id: TransactionID,
    pub time: Timestamp,
    pub user_id: i64,
    pub account_id: AccountID,
    pub batch_id: TransactionID,
    pub request_id: Option<RequestID>,
    pub trade_id: TradeID,
    pub client_trade_id: Option<ClientID>,
    pub price: PriceValue,
    pub distance: Option<DecimalNumber>,
    pub time_in_force: TimeInForce,
    pub gtd_time: Option<Timestamp>,
    pub trigger_condition: OrderTriggerCondition,
    pub reason: StopLossOrderReason,
    pub client_extensions: Option<ClientExtensions>,
    pub order_fill_transaction_id: Option<TransactionID>,
    pub replaces_order_id: Option<OrderID>,
    pub cancelling_transaction_id: Option<TransactionID>,
    pub intended_replaces_order_id: Option<OrderID>,
    pub reject_reason: TransactionRejectReason,
}

/// Transaction recorded when a guaranteed stop-loss order (GSLO) is attached to or created for a trade.
///
/// Unlike a regular stop-loss, a GSLO guarantees the fill price at the specified level,
/// regardless of market gaps, in exchange for a premium.
#[derive(Debug)]
pub struct GuaranteedStopLossOrderTransaction {
    pub id: TransactionID,
    pub time: Timestamp,
    pub user_id: i64,
    pub account_id: AccountID,
    pub batch_id: TransactionID,
    pub request_id: Option<RequestID>,
    pub trade_id: TradeID,
    pub client_trade_id: Option<ClientID>,
    pub price: PriceValue,
    pub distance: Option<DecimalNumber>,
    pub time_in_force: TimeInForce,
    pub gtd_time: Option<Timestamp>,
    pub trigger_condition: OrderTriggerCondition,
    pub reason: GuaranteedStopLossOrderReason,
    pub client_extensions: Option<ClientExtensions>,
    pub order_fill_transaction_id: Option<TransactionID>,
    pub replaces_order_id: Option<OrderID>,
    pub cancelling_transaction_id: Option<TransactionID>,
}

/// Transaction recorded when a guaranteed stop-loss order request is rejected.
#[derive(Debug)]
pub struct GuaranteedStopLossOrderRejectTransaction {
    pub id: TransactionID,
    pub time: Timestamp,
    pub user_id: i64,
    pub account_id: AccountID,
    pub batch_id: TransactionID,
    pub request_id: Option<RequestID>,
    pub trade_id: TradeID,
    pub client_trade_id: Option<ClientID>,
    pub price: PriceValue,
    pub distance: Option<DecimalNumber>,
    pub time_in_force: TimeInForce,
    pub gtd_time: Option<Timestamp>,
    pub trigger_condition: OrderTriggerCondition,
    pub reason: GuaranteedStopLossOrderReason,
    pub client_extensions: Option<ClientExtensions>,
    pub order_fill_transaction_id: Option<TransactionID>,
    pub replaces_order_id: Option<OrderID>,
    pub cancelling_transaction_id: Option<TransactionID>,
    pub intended_replaces_order_id: Option<OrderID>,
    pub reject_reason: TransactionRejectReason,
}

/// Transaction recorded when a trailing stop-loss order is attached to or created for a trade.
///
/// The order trails the market price by the specified `distance`, locking in profit
/// as the price moves in the trade's favour.
#[derive(Debug)]
pub struct TrailingStopLossOrderTransaction {
    pub id: TransactionID,
    pub time: Timestamp,
    pub user_id: i64,
    pub account_id: AccountID,
    pub batch_id: TransactionID,
    pub request_id: Option<RequestID>,
    pub trade_id: TradeID,
    pub client_trade_id: Option<ClientID>,
    pub distance: DecimalNumber,
    pub time_in_force: TimeInForce,
    pub gtd_time: Option<Timestamp>,
    pub trigger_condition: OrderTriggerCondition,
    pub reason: TrailingStopLossOrderReason,
    pub client_extensions: Option<ClientExtensions>,
    pub order_fill_transaction_id: Option<TransactionID>,
    pub replaces_order_id: Option<OrderID>,
    pub cancelling_transaction_id: Option<TransactionID>,
}

/// Transaction recorded when a trailing stop-loss order request is rejected.
#[derive(Debug)]
pub struct TrailingStopLossOrderRejectTransaction {
    pub id: TransactionID,
    pub time: Timestamp,
    pub user_id: i64,
    pub account_id: AccountID,
    pub batch_id: TransactionID,
    pub request_id: Option<RequestID>,
    pub trade_id: TradeID,
    pub client_trade_id: Option<ClientID>,
    pub distance: DecimalNumber,
    pub time_in_force: TimeInForce,
    pub gtd_time: Option<Timestamp>,
    pub trigger_condition: OrderTriggerCondition,
    pub reason: TrailingStopLossOrderReason,
    pub client_extensions: Option<ClientExtensions>,
    pub order_fill_transaction_id: Option<TransactionID>,
    pub replaces_order_id: Option<OrderID>,
    pub cancelling_transaction_id: Option<TransactionID>,
    pub intended_replaces_order_id: Option<OrderID>,
    pub reject_reason: TransactionRejectReason,
}

/// Transaction recorded when an order is filled and a trade is opened, closed, or reduced.
///
/// This is the primary transaction for all trade activity. Fields such as `trade_opened`,
/// `trades_closed`, and `trade_reduced` describe what changed as a result of the fill.
#[derive(Debug)]
pub struct OrderFillTransaction {
    pub id: TransactionID,
    pub time: Timestamp,
    pub user_id: i64,
    pub account_id: AccountID,
    pub batch_id: TransactionID,
    pub request_id: Option<RequestID>,
    pub order_id: OrderID,
    pub client_order_id: Option<ClientID>,
    pub instrument: InstrumentName,
    pub units: DecimalNumber,
    pub home_conversion_factors: HomeConversionFactors,
    pub full_vwap: PriceValue,
    pub full_price: ClientPrice,
    pub reason: OrderFillReason,
    pub pl: AccountUnits,
    pub financing: AccountUnits,
    pub base_financing: AccountUnits,
    pub quote_financing: Option<AccountUnits>,
    pub commission: AccountUnits,
    pub guaranteed_execution_fee: AccountUnits,
    pub quote_guaranteed_execution_fee: AccountUnits,
    pub half_spread_cost: AccountUnits,
    pub account_balance: AccountUnits,
    pub trade_opened: Option<TradeOpen>,
    pub trades_closed: Option<Vec<TradeReduce>>,
    pub trade_reduced: Option<TradeReduce>,
}

/// Transaction recorded when a pending order is cancelled.
#[derive(Debug)]
pub struct OrderCancelTransaction {
    pub id: TransactionID,
    pub time: Timestamp,
    pub user_id: i64,
    pub account_id: AccountID,
    pub batch_id: TransactionID,
    pub request_id: Option<RequestID>,
    pub order_id: OrderID,
    pub client_order_id: Option<ClientID>,
    pub reason: OrderCancelReason,
    pub replaced_by_order_id: Option<OrderID>,
}

/// Transaction recorded when an order cancellation request is rejected.
#[derive(Debug)]
pub struct OrderCancelRejectTransaction {
    pub id: TransactionID,
    pub time: Timestamp,
    pub user_id: i64,
    pub account_id: AccountID,
    pub batch_id: TransactionID,
    pub request_id: Option<RequestID>,
    pub order_id: OrderID,
    pub client_order_id: Option<ClientID>,
    pub reject_reason: TransactionRejectReason,
}

/// Transaction recorded when the client extensions on an order are successfully updated.
#[derive(Debug)]
pub struct OrderClientExtensionsModifyTransaction {
    pub id: TransactionID,
    pub time: Timestamp,
    pub user_id: i64,
    pub account_id: AccountID,
    pub batch_id: TransactionID,
    pub request_id: Option<RequestID>,
    pub order_id: OrderID,
    pub client_order_id: Option<ClientID>,
    pub client_extensions_modify: Option<ClientExtensions>,
    pub trade_client_extensions_modify: Option<ClientExtensions>,
}

/// Transaction recorded when an order client-extensions modification request is rejected.
#[derive(Debug)]
pub struct OrderClientExtensionsModifyRejectTransaction {
    pub id: TransactionID,
    pub time: Timestamp,
    pub user_id: i64,
    pub account_id: AccountID,
    pub batch_id: TransactionID,
    pub request_id: Option<RequestID>,
    pub order_id: OrderID,
    pub client_order_id: Option<ClientID>,
    pub client_extensions_modify: Option<ClientExtensions>,
    pub trade_client_extensions_modify: Option<ClientExtensions>,
    pub reject_reason: TransactionRejectReason,
}

/// Transaction recorded when the client extensions on a trade are successfully updated.
#[derive(Debug)]
pub struct TradeClientExtensionsModifyTransaction {
    pub id: TransactionID,
    pub time: Timestamp,
    pub user_id: i64,
    pub account_id: AccountID,
    pub batch_id: TransactionID,
    pub request_id: Option<RequestID>,
    pub trade_id: TradeID,
    pub client_trade_id: Option<ClientID>,
    pub trade_client_extensions_modify: Option<ClientExtensions>,
}

/// Transaction recorded when a trade client-extensions modification request is rejected.
#[derive(Debug)]
pub struct TradeClientExtensionsModifyRejectTransaction {
    pub id: TransactionID,
    pub time: Timestamp,
    pub user_id: i64,
    pub account_id: AccountID,
    pub batch_id: TransactionID,
    pub request_id: Option<RequestID>,
    pub trade_id: TradeID,
    pub client_trade_id: Option<ClientID>,
    pub trade_client_extensions_modify: Option<ClientExtensions>,
    pub reject_reason: TransactionRejectReason,
}

/// Transaction recorded when the account enters a margin call state.
///
/// OANDA will begin closing positions if the account margin level continues to fall.
#[derive(Debug)]
pub struct MarginCallEnterTransaction {
    pub id: TransactionID,
    pub time: Timestamp,
    pub user_id: i64,
    pub account_id: AccountID,
    pub batch_id: TransactionID,
    pub request_id: Option<RequestID>,
}

/// Transaction recorded each time the margin call duration is extended.
///
/// OANDA allows a grace period before forced liquidation; each extension is recorded here.
#[derive(Debug)]
pub struct MarginCallExtendTransaction {
    pub id: TransactionID,
    pub time: Timestamp,
    pub user_id: i64,
    pub account_id: AccountID,
    pub batch_id: TransactionID,
    pub request_id: Option<RequestID>,
    /// The number of times this margin call has been extended.
    pub extension_number: Option<i64>,
}

/// Transaction recorded when the account exits the margin call state
/// (either by depositing funds or by reducing exposure).
#[derive(Debug)]
pub struct MarginCallExitTransaction {
    pub id: TransactionID,
    pub time: Timestamp,
    pub user_id: i64,
    pub account_id: AccountID,
    pub batch_id: TransactionID,
    pub request_id: Option<RequestID>,
}

/// Transaction recorded when one or more trades are queued for closure at the next
/// tradeable price (e.g. after a market halt or margin closeout during non-trading hours).
#[derive(Debug)]
pub struct DelayedTradeClosureTransaction {
    pub id: TransactionID,
    pub time: Timestamp,
    pub user_id: i64,
    pub account_id: AccountID,
    pub batch_id: TransactionID,
    pub request_id: Option<RequestID>,
    pub reason: MarketOrderReason,
    pub trade_ids: Vec<TradeID>,
}

/// Transaction recorded at the end of each trading day when financing (swap/rollover)
/// charges or credits are applied to all open positions.
#[derive(Debug)]
pub struct DailyFinancingTransaction {
    pub id: TransactionID,
    pub time: Timestamp,
    pub user_id: i64,
    pub account_id: AccountID,
    pub batch_id: TransactionID,
    pub request_id: Option<RequestID>,
    pub financing: AccountUnits,
    pub account_balance: AccountUnits,
    pub position_financings: Vec<PositionFinancing>,
}

/// Transaction recorded when a dividend adjustment is applied to open CFD positions
/// in an instrument that has paid a dividend.
#[derive(Debug)]
pub struct DividendAdjustmentTransaction {
    pub id: TransactionID,
    pub time: Timestamp,
    pub user_id: i64,
    pub account_id: AccountID,
    pub batch_id: TransactionID,
    pub request_id: Option<RequestID>,
    pub instrument: InstrumentName,
    pub dividend_adjustment: AccountUnits,
    pub quote_dividend_adjustment: AccountUnits,
    pub home_conversion_factors: HomeConversionFactors,
    pub account_balance: AccountUnits,
    pub open_trade_dividend_adjustments: Vec<OpenTradeDividendAdjustment>,
}

/// Transaction recorded when the account's resettable P&L is reset to zero.
///
/// Clients can request a P&L reset to restart P&L tracking from the current balance.
#[derive(Debug)]
pub struct ResetResettablePLTransaction {
    pub id: TransactionID,
    pub time: Timestamp,
    pub user_id: i64,
    pub account_id: AccountID,
    pub batch_id: TransactionID,
    pub request_id: Option<RequestID>,
}

/// An item from the OANDA transaction stream.
///
/// The stream emits either a [`TransactionHeartbeat`] (when idle) or a full
/// [`Transaction`] (for every account event). Deserialised via the `"type"` tag.
#[derive(Debug)]
pub enum TransactionStreamItem {
    /// A periodic keepalive sent while the account is idle.
    Heartbeat(TransactionHeartbeat),
    /// Boxed because `Transaction` is much larger than a heartbeat.
    Transaction(Box<Transaction>),
}


impl OrderCreateTransaction {
    /// The ID of the underlying order-creation transaction.
    pub open spec fn spec_id(&self) -> Seq<char> {
        match self {
            OrderCreateTransaction::MarketOrderTransaction(t) => t.id@,
            OrderCreateTransaction::FixedPriceOrderTransaction(t) => t.id@,
            OrderCreateTransaction::LimitOrderTransaction(t) => t.id@,
            OrderCreateTransaction::StopOrderTransaction(t) => t.id@,
            OrderCreateTransaction::MarketIfTouchedOrderTransaction(t) => t.id@,
            OrderCreateTransaction::TakeProfitOrderTransaction(t) => t.id@,
            OrderCreateTransaction::StopLossOrderTransaction(t) => t.id@,
            OrderCreateTransaction::GuaranteedStopLossOrderTransaction(t) => t.id@,
            OrderCreateTransaction::TrailingStopLossOrderTransaction(t) => t.id@,
        }
    }

    /// Returns the [`TransactionID`] of the underlying order-creation transaction,
    /// regardless of which order type it is.
    pub fn get_id(&self) -> (id: TransactionID)
        ensures
            id@ == self.spec_id(),
    {
        match self {
            OrderCreateTransaction::MarketOrderTransaction(t) => copy_string(&t.id),
            OrderCreateTransaction::FixedPriceOrderTransaction(t) => copy_string(&t.id),
            OrderCreateTransaction::LimitOrderTransaction(t) => copy_string(&t.id),
            OrderCreateTransaction::StopOrderTransaction(t) => copy_string(&t.id),
            OrderCreateTransaction::MarketIfTouchedOrderTransaction(t) => copy_string(&t.id),
            OrderCreateTransaction::TakeProfitOrderTransaction(t) => copy_string(&t.id),
            OrderCreateTransaction::StopLossOrderTransaction(t) => copy_string(&t.id),
            OrderCreateTransaction::GuaranteedStopLossOrderTransaction(t) => copy_string(&t.id),
            OrderCreateTransaction::TrailingStopLossOrderTransaction(t) => copy_string(&t.id),
        }
    }
}

} // verus!
