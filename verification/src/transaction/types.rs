//! Identifiers and the enums of transaction types, filters and reasons.

use crate::text::{screaming_snake, screaming_snake_prefix};
use vstd::prelude::*;

verus! {

/// A unique identifier for a transaction, assigned by OANDA (e.g. `"1234"`).
pub type TransactionID = String;

/// A client-assigned identifier for an order or trade (e.g. `"my-order-001"`).
pub type ClientID = String;

/// A client-assigned tag for grouping orders or trades.
pub type ClientTag = String;

/// A free-text comment attached to an order or trade by the client.
pub type ClientComment = String;

/// An identifier for the HTTP request that created a transaction, echoed back by OANDA.
pub type RequestID = String;

/// A monetary amount expressed in the account's home currency, serialised as a decimal string.
pub type AccountUnits = String;

/// A unique identifier for a trade, assigned by OANDA (e.g. `"42"`).
pub type TradeID = String;

/// A unique identifier for an order, assigned by OANDA (e.g. `"7"`).
pub type OrderID = String;

/// All transaction types that can appear on an OANDA account.
///
/// Used as a filter value when listing transactions via [`ListTransactionsRequest`].
#[derive(Debug, Clone, Copy, PartialEq, Eq, Structural)]
pub enum TransactionType {
    Create,
    Close,
    Reopen,
    ClientConfigure,
    ClientConfigureReject,
    TransferFunds,
    TransferFundsReject,
    MarketOrder,
    MarketOrderReject,
    FixedPriceOrder,
    LimitOrder,
    LimitOrderReject,
    StopOrder,
    StopOrderReject,
    MarketIfTouchedOrder,
    MarketIfTouchedOrderReject,
    TakeProfitOrder,
    TakeProfitOrderReject,
    StopLossOrder,
    StopLossOrderReject,
    GuaranteedStopLossOrder,
    GuaranteedStopLossOrderReject,
    TrailingStopLossOrder,
    TrailingStopLossOrderReject,
    OrderFill,
    OrderCancel,
    OrderCancelReject,
    OrderClientExtensionsModify,
    OrderClientExtensionsModifyReject,
    TradeClientExtensionsModify,
    TradeClientExtensionsModifyReject,
    MarginCallEnter,
    MarginCallExtend,
    MarginCallExit,
    DelayedTradeClosure,
    DailyFinancing,
    DividendAdjustment,
    ResetResettablePL,
}

/// Why a funds transfer occurred on an account.
#[derive(Debug, Clone, Copy, PartialEq, Eq, Structural)]
pub enum FundingReason {
    /// The client explicitly deposited or withdrew funds.
    ClientFunding,
    /// Funds were moved between accounts under the same owner.
    AccountTransfer,
    /// Funds were transferred as part of a division migration.
    DivisionMigration,
    /// Funds were transferred as part of a site migration.
    SiteMigration,
    /// An administrative adjustment was applied to the account balance.
    Adjustment,
}

/// Why a market order was created.
#[derive(Debug, Clone, Copy, PartialEq, Eq, Structural)]
pub enum MarketOrderReason {
    /// Submitted directly by the client.
    ClientOrder,
    /// Created automatically to close a specific trade.
    TradeClose,
    /// Created automatically to close out a position.
    PositionCloseout,
    /// Created automatically by OANDA to reduce exposure during a margin call.
    MarginCloseout,
    /// Created to close a trade that was deferred due to the market being closed.
    DelayedTradeClose,
}

/// Why a fixed-price order was created by OANDA internally.
#[derive(Debug, Clone, Copy, PartialEq, Eq, Structural)]
pub enum FixedPriceOrderReason {
    /// Created to migrate open trades during a platform account migration.
    PlatformAccountMigration,
    /// Created to close a trade during a division account migration.
    TradeCloseDivisionAccountMigration,
    /// Created to close a trade as part of an administrative action.
    TradeCloseAdministrativeAction,
}

/// Why a limit order was created.
#[derive(Debug, Clone, Copy, PartialEq, Eq, Structural)]
pub enum LimitOrderReason {
    /// Submitted directly by the client.
    ClientOrder,
    /// Created to replace a previously cancelled order.
    Replacement,
}

/// Why a stop order was created.
#[derive(Debug, Clone, Copy, PartialEq, Eq, Structural)]
pub enum StopOrderReason {
    /// Submitted directly by the client.
    ClientOrder,
    /// Created to replace a previously cancelled order.
    Replacement,
}

/// Why a market-if-touched order was created.
#[derive(Debug, Clone, Copy, PartialEq, Eq, Structural)]
pub enum MarketIfTouchedOrderReason {
    /// Submitted directly by the client.
    ClientOrder,
    /// Created to replace a previously cancelled order.
    Replacement,
}

/// Why a take-profit order was created.
#[derive(Debug, Clone, Copy, PartialEq, Eq, Structural)]
pub enum TakeProfitOrderReason {
    /// Submitted directly by the client.
    ClientOrder,
    /// Created to replace an existing take-profit on the same trade.
    Replacement,
    /// Created automatically when a trade was opened with `take_profit_on_fill` set.
    OnFill,
}

/// Why a stop-loss order was created.
#[derive(Debug, Clone, Copy, PartialEq, Eq, Structural)]
pub enum StopLossOrderReason {
    /// Submitted directly by the client.
    ClientOrder,
    /// Created to replace an existing stop-loss on the same trade.
    Replacement,
    /// Created automatically when a trade was opened with `stop_loss_on_fill` set.
    OnFill,
}

/// Why a guaranteed stop-loss order was created.
#[derive(Debug, Clone, Copy, PartialEq, Eq, Structural)]
pub enum GuaranteedStopLossOrderReason {
    /// Submitted directly by the client.
    ClientOrder,
    /// Created to replace an existing guaranteed stop-loss on the same trade.
    Replacement,
    /// Created automatically when a trade was opened with `guaranteed_stop_loss_on_fill` set.
    OnFill,
}

/// Why a trailing stop-loss order was created.
#[derive(Debug, Clone, Copy, PartialEq, Eq, Structural)]
pub enum TrailingStopLossOrderReason {
    /// Submitted directly by the client.
    ClientOrder,
    /// Created to replace an existing trailing stop-loss on the same trade.
    Replacement,
    /// Created automatically when a trade was opened with `trailing_stop_loss_on_fill` set.
    OnFill,
}

/// Why an order was filled (what type of order triggered the fill).
#[derive(Debug, Clone, Copy, PartialEq, Eq, Structural)]
pub enum OrderFillReason {
    LimitOrder,
    StopOrder,
    MarketIfTouchedOrder,
    TakeProfitOrder,
    StopLossOrder,
    GuaranteedStopLossOrder,
    TrailingStopLossOrder,
    MarketOrder,
    MarketOrderTradeClose,
    MarketOrderPositionCloseout,
    MarketOrderMarginCloseout,
    MarketOrderDelayedTradeClose,
    FixedPriceOrder,
    FixedPriceOrderPlatformAccountMigration,
    FixedPriceOrderDivisionAccountMigration,
    FixedPriceOrderAdministrativeAction,
}

/// Why a pending order was cancelled.
#[derive(Debug, Clone, Copy, PartialEq, Eq, Structural)]
pub enum OrderCancelReason {
    InternalServerError,
    AccountLocked,
    AccountNewPositionsLocked,
    AccountOrderCreationLocked,
    AccountOrderFillLocked,
    ClientRequest,
    Migration,
    MarketHalted,
    LinkedTradeClosed,
    TimeInForceExpired,
    InsufficientMargin,
    FifoViolation,
    BoundsViolation,
    ClientRequestReplaced,
    DividendAdjustmentReplaced,
    InsufficientLiquidity,
    TakeProfitOnFillGtdTimestampInPast,
    TakeProfitOnFillLoss,
    LosingTakeProfit,
    StopLossOnFillGtdTimestampInPast,
    StopLossOnFillLoss,
    StopLossOnFillPriceDistanceMaximumExceeded,
    StopLossOnFillRequired,
    StopLossOnFillGuaranteedRequired,
    StopLossOnFillGuaranteedNotAllowed,
    StopLossOnFillGuaranteedMinimumDistanceNotMet,
    StopLossOnFillGuaranteedLevelRestrictionExceeded,
    StopLossOnFillGuaranteedHedgingNotAllowed,
    StopLossOnFillTimeInForceInvalid,
    StopLossOnFillTriggerConditionInvalid,
    GuaranteedStopLossOnFillGtdTimestampInPast,
    GuaranteedStopLossOnFillLoss,
    GuaranteedStopLossOnFillPriceDistanceMaximumExceeded,
    GuaranteedStopLossOnFillRequired,
    GuaranteedStopLossOnFillNotAllowed,
    GuaranteedStopLossOnFillMinimumDistanceNotMet,
    GuaranteedStopLossOnFillLevelRestrictionVolumeExceeded,
    GuaranteedStopLossOnFillLevelRestrictionPriceRangeExceeded,
    GuaranteedStopLossOnFillHedgingNotAllowed,
    GuaranteedStopLossOnFillTimeInForceInvalid,
    GuaranteedStopLossOnFillTriggerConditionInvalid,
    TakeProfitOnFillPriceDistanceMaximumExceeded,
    TrailingStopLossOnFillGtdTimestampInPast,
    ClientTradeIdAlreadyExists,
    PositionCloseoutFailed,
    OpenTradesAllowedExceeded,
    PendingOrdersAllowedExceeded,
    TakeProfitOnFillClientOrderIdAlreadyExists,
    StopLossOnFillClientOrderIdAlreadyExists,
    GuaranteedStopLossOnFillClientOrderIdAlreadyExists,
    TrailingStopLossOnFillClientOrderIdAlreadyExists,
    PositionSizeExceeded,
    HedgingGsloViolation,
    AccountPositionValueLimitExceeded,
    InstrumentBidReduceOnly,
    InstrumentAskReduceOnly,
    InstrumentBidHalted,
    InstrumentAskHalted,
    StopLossOnFillGuaranteedBidHalted,
    StopLossOnFillGuaranteedAskHalted,
    GuaranteedStopLossOnFillBidHalted,
    GuaranteedStopLossOnFillAskHalted,
    FifoViolationSafeguardViolation,
    FifoViolationSafeguardPartialCloseViolation,
    OrdersOnFillRmoMutualExclusivityMutuallyExclusiveViolation,
    /// A value not known to this version of the crate. OANDA adds new
    /// values over time; this keeps such transactions decodable.
    Unknown,
}

/// How financing (swap/rollover) is applied to open positions on an account.
#[derive(Debug, Clone, Copy, PartialEq, Eq, Structural)]
pub enum AccountFinancingMode {
    /// No financing is applied (typically for spread-bet accounts).
    NoFinancing,
    /// Financing accrues every second and is settled daily.
    SecondBySecond,
    /// Financing is computed and applied once per day.
    Daily,
}

/// A coarser filter for querying transactions by category.
///
/// Used with [`ListTransactionsRequest`], [`GetTransactionsByIDRangeRequest`], and
/// [`GetTransactionsBySinceIDRequest`] to narrow results to a subset of transaction
/// types. Variants like [`Order`](Self::Order) and [`Funding`](Self::Funding)
/// aggregate multiple [`TransactionType`] values.
#[derive(Debug, Clone, Copy, PartialEq, Eq, Structural)]
pub enum TransactionFilter {
    Order,
    Funding,
    Admin,
    Create,
    Close,
    Reopen,
    ClientConfigure,
    ClientConfigureReject,
    TransferFunds,
    TransferFundsReject,
    MarketOrder,
    MarketOrderReject,
    LimitOrder,
    LimitOrderReject,
    StopOrder,
    StopOrderReject,
    MarketIfTouchedOrder,
    MarketIfTouchedOrderReject,
    TakeProfitOrder,
    TakeProfitOrderReject,
    StopLossOrder,
    StopLossOrderReject,
    GuaranteedStopLossOrder,
    GuaranteedStopLossOrderReject,
    TrailingStopLossOrder,
    TrailingStopLossOrderReject,
    OneCancelsAllOrder,
    OneCancelsAllOrderReject,
    OneCancelsAllOrderTriggered,
    OrderFill,
    OrderCancel,
    OrderCancelReject,
    OrderClientExtensionsModify,
    OrderClientExtensionsModifyReject,
    TradeClientExtensionsModify,
    TradeClientExtensionsModifyReject,
    MarginCallEnter,
    MarginCallExtend,
    MarginCallExit,
    DelayedTradeClosure,
    DailyFinancing,
    ResetResettablePL,
}

/// Machine-readable reason why a transaction was rejected by the OANDA API.
///
/// Returned in the `reject_reason` field of every `*RejectTransaction` struct.
/// The variant names are self-describing; consult the OANDA v20 REST API docs for
/// the precise conditions under which each variant is returned.
#[derive(Debug, Clone, Copy, PartialEq, Eq, Structural)]
pub enum TransactionRejectReason {
    InternalServerError,
    InstrumentPriceUnknown,
    AccountNotActive,
    AccountLocked,
    AccountOrderCreationLocked,
    AccountConfigurationLocked,
    AccountDepositLocked,
    AccountWithdrawalLocked,
    AccountOrderCancelLocked,
    InstrumentNotTradeable,
    PendingOrdersAllowedExceeded,
    OrderIdUnspecified,
    OrderDoesntExist,
    OrderIdentifierInconsistency,
    TradeIdUnspecified,
    TradeDoesntExist,
    TradeIdentifierInconsistency,
    InsufficientMargin,
    InstrumentMissing,
    InstrumentUnknown,
    UnitsMissing,
    UnitsInvalid,
    UnitsPrecisionExceeded,
    UnitsLimitExceeded,
    UnitsMinimumNotMet,
    PriceMissing,
    PriceInvalid,
    PricePrecisionExceeded,
    PriceDistanceMissing,
    PriceDistanceInvalid,
    PriceDistancePrecisionExceeded,
    PriceDistanceMaximumExceeded,
    PriceDistanceMinimumNotMet,
    TimeInForceMissing,
    TimeInForceInvalid,
    TimeInForceGtdTimestampMissing,
    TimeInForceGtdTimestampInPast,
    PriceBoundInvalid,
    PriceBoundPrecisionExceeded,
    OrdersOnFillDuplicateClientOrderIds,
    TradeOnFillClientExtensionsNotSupported,
    ClientOrderIdInvalid,
    ClientOrderIdAlreadyExists,
    ClientOrderTagInvalid,
    ClientOrderCommentInvalid,
    ClientTradeIdInvalid,
    ClientTradeIdAlreadyExists,
    ClientTradeTagInvalid,
    ClientTradeCommentInvalid,
    OrderFillPositionActionMissing,
    OrderFillPositionActionInvalid,
    TriggerConditionMissing,
    TriggerConditionInvalid,
    OrderPartialFillOptionMissing,
    OrderPartialFillOptionInvalid,
    InvalidReissueImmediatePartialFill,
    OrdersOnFillRmoMutualExclusivityMutuallyExclusiveViolation,
    OrdersOnFillRmoMutualExclusivityGsloExcludesOthersViolation,
    TakeProfitOrderAlreadyExists,
    TakeProfitOrderWouldViolateFifoViolationSafeguard,
    TakeProfitOnFillPriceMissing,
    TakeProfitOnFillPriceInvalid,
    TakeProfitOnFillPricePrecisionExceeded,
    TakeProfitOnFillTimeInForceMissing,
    TakeProfitOnFillTimeInForceInvalid,
    TakeProfitOnFillGtdTimestampMissing,
    TakeProfitOnFillGtdTimestampInPast,
    TakeProfitOnFillClientOrderIdInvalid,
    TakeProfitOnFillClientOrderTagInvalid,
    TakeProfitOnFillClientOrderCommentInvalid,
    TakeProfitOnFillTriggerConditionMissing,
    TakeProfitOnFillTriggerConditionInvalid,
    StopLossOrderAlreadyExists,
    StopLossOrderGuaranteedRequired,
    StopLossOrderGuaranteedPriceWithinSpread,
    StopLossOrderGuaranteedNotAllowed,
    StopLossOrderGuaranteedHaltedCreateViolation,
    StopLossOrderGuaranteedHaltedTightenViolation,
    StopLossOrderGuaranteedHedgingNotAllowed,
    StopLossOrderGuaranteedMinimumDistanceNotMet,
    StopLossOrderNotCancelable,
    StopLossOrderNotReplaceable,
    StopLossOrderGuaranteedLevelRestrictionExceeded,
    StopLossOrderPriceAndDistanceBothSpecified,
    StopLossOrderPriceAndDistanceBothMissing,
    StopLossOrderWouldViolateFifoViolationSafeguard,
    StopLossOrderRmoMutualExclusivityMutuallyExclusiveViolation,
    StopLossOrderRmoMutualExclusivityGsloExcludesOthersViolation,
    StopLossOnFillRequiredForPendingOrder,
    StopLossOnFillGuaranteedNotAllowed,
    StopLossOnFillGuaranteedRequired,
    StopLossOnFillPriceMissing,
    StopLossOnFillPriceInvalid,
    StopLossOnFillPricePrecisionExceeded,
    StopLossOnFillGuaranteedMinimumDistanceNotMet,
    StopLossOnFillGuaranteedLevelRestrictionExceeded,
    StopLossOnFillDistanceInvalid,
    StopLossOnFillPriceDistanceMaximumExceeded,
    StopLossOnFillDistancePrecisionExceeded,
    StopLossOnFillPriceAndDistanceBothSpecified,
    StopLossOnFillPriceAndDistanceBothMissing,
    StopLossOnFillTimeInForceMissing,
    StopLossOnFillTimeInForceInvalid,
    StopLossOnFillGtdTimestampMissing,
    StopLossOnFillGtdTimestampInPast,
    StopLossOnFillClientOrderIdInvalid,
    StopLossOnFillClientOrderTagInvalid,
    StopLossOnFillClientOrderCommentInvalid,
    StopLossOnFillTriggerConditionMissing,
    StopLossOnFillTriggerConditionInvalid,
    GuaranteedStopLossOrderAlreadyExists,
    GuaranteedStopLossOrderRequired,
    GuaranteedStopLossOrderPriceWithinSpread,
    GuaranteedStopLossOrderNotAllowed,
    GuaranteedStopLossOrderHaltedCreateViolation,
    GuaranteedStopLossOrderCreateViolation,
    GuaranteedStopLossOrderHaltedTightenViolation,
    GuaranteedStopLossOrderTightenViolation,
    GuaranteedStopLossOrderHedgingNotAllowed,
    GuaranteedStopLossOrderMinimumDistanceNotMet,
    GuaranteedStopLossOrderNotCancelable,
    GuaranteedStopLossOrderHaltedNotCancelable,
    GuaranteedStopLossOrderNotReplaceable,
    GuaranteedStopLossOrderHaltedNotReplaceable,
    GuaranteedStopLossOrderLevelRestrictionVolumeExceeded,
    GuaranteedStopLossOrderLevelRestrictionPriceRangeExceeded,
    GuaranteedStopLossOrderPriceAndDistanceBothSpecified,
    GuaranteedStopLossOrderPriceAndDistanceBothMissing,
    GuaranteedStopLossOrderWouldViolateFifoViolationSafeguard,
    GuaranteedStopLossOrderRmoMutualExclusivityMutuallyExclusiveViolation,
    GuaranteedStopLossOrderRmoMutualExclusivityGsloExcludesOthersViolation,
    GuaranteedStopLossOnFillRequiredForPendingOrder,
    GuaranteedStopLossOnFillNotAllowed,
    GuaranteedStopLossOnFillRequired,
    GuaranteedStopLossOnFillPriceMissing,
    GuaranteedStopLossOnFillPriceInvalid,
    GuaranteedStopLossOnFillPricePrecisionExceeded,
    GuaranteedStopLossOnFillMinimumDistanceNotMet,
    GuaranteedStopLossOnFillLevelRestrictionVolumeExceeded,
    GuaranteedStopLossOnFillLevelRestrictionPriceRangeExceeded,
    GuaranteedStopLossOnFillDistanceInvalid,
    GuaranteedStopLossOnFillPriceDistanceMaximumExceeded,
    GuaranteedStopLossOnFillDistancePrecisionExceeded,
    GuaranteedStopLossOnFillPriceAndDistanceBothSpecified,
    GuaranteedStopLossOnFillPriceAndDistanceBothMissing,
    GuaranteedStopLossOnFillTimeInForceMissing,
    GuaranteedStopLossOnFillTimeInForceInvalid,
    GuaranteedStopLossOnFillGtdTimestampMissing,
    GuaranteedStopLossOnFillGtdTimestampInPast,
    GuaranteedStopLossOnFillClientOrderIdInvalid,
    GuaranteedStopLossOnFillClientOrderTagInvalid,
    GuaranteedStopLossOnFillClientOrderCommentInvalid,
    GuaranteedStopLossOnFillTriggerConditionMissing,
    GuaranteedStopLossOnFillTriggerConditionInvalid,
    TrailingStopLossOrderAlreadyExists,
    TrailingStopLossOrderWouldViolateFifoViolationSafeguard,
    TrailingStopLossOrderRmoMutualExclusivityMutuallyExclusiveViolation,
    TrailingStopLossOrderRmoMutualExclusivityGsloExcludesOthersViolation,
    TrailingStopLossOnFillPriceDistanceMissing,
    TrailingStopLossOnFillPriceDistanceInvalid,
    TrailingStopLossOnFillPriceDistancePrecisionExceeded,
    TrailingStopLossOnFillPriceDistanceMaximumExceeded,
    TrailingStopLossOnFillPriceDistanceMinimumNotMet,
    TrailingStopLossOnFillTimeInForceMissing,
    TrailingStopLossOnFillTimeInForceInvalid,
    TrailingStopLossOnFillGtdTimestampMissing,
    TrailingStopLossOnFillGtdTimestampInPast,
    TrailingStopLossOnFillClientOrderIdInvalid,
    TrailingStopLossOnFillClientOrderTagInvalid,
    TrailingStopLossOnFillClientOrderCommentInvalid,
    TrailingStopLossOrdersNotSupported,
    TrailingStopLossOnFillTriggerConditionMissing,
    TrailingStopLossOnFillTriggerConditionInvalid,
    CloseTradeTypeMissing,
    CloseTradePartialUnitsMissing,
    CloseTradeUnitsExceedTradeSize,
    CloseoutPositionDoesntExist,
    CloseoutPositionIncompleteSpecification,
    CloseoutPositionUnitsExceedPositionSize,
    CloseoutPositionReject,
    CloseoutPositionPartialUnitsMissing,
    MarkupGroupIdInvalid,
    PositionAggregationModeInvalid,
    AdminConfigureDataMissing,
    MarginRateInvalid,
    MarginRateWouldTriggerCloseout,
    AliasInvalid,
    ClientConfigureDataMissing,
    MarginRateWouldTriggerMarginCall,
    AmountInvalid,
    InsufficientFunds,
    AmountMissing,
    FundingReasonMissing,
    OcaOrderIdsStopLossNotAllowed,
    ClientExtensionsDataMissing,
    ReplacingOrderInvalid,
    ReplacingTradeIdInvalid,
    OrderCancelWouldTriggerCloseout,
    /// A value not known to this version of the crate. OANDA adds new
    /// values over time; this keeps such transactions decodable.
    Unknown,
}

impl TransactionType {
    /// The name of the variant, as written in this source.
    pub open spec fn variant_name(self) -> Seq<char> {
        match self {
            TransactionType::Create => "Create"@,
            TransactionType::Close => "Close"@,
            TransactionType::Reopen => "Reopen"@,
            TransactionType::ClientConfigure => "ClientConfigure"@,
            TransactionType::ClientConfigureReject => "ClientConfigureReject"@,
            TransactionType::TransferFunds => "TransferFunds"@,
            TransactionType::TransferFundsReject => "TransferFundsReject"@,
            TransactionType::MarketOrder => "MarketOrder"@,
            TransactionType::MarketOrderReject => "MarketOrderReject"@,
            TransactionType::FixedPriceOrder => "FixedPriceOrder"@,
            TransactionType::LimitOrder => "LimitOrder"@,
            TransactionType::LimitOrderReject => "LimitOrderReject"@,
            TransactionType::StopOrder => "StopOrder"@,
            TransactionType::StopOrderReject => "StopOrderReject"@,
            TransactionType::MarketIfTouchedOrder => "MarketIfTouchedOrder"@,
            TransactionType::MarketIfTouchedOrderReject => "MarketIfTouchedOrderReject"@,
            TransactionType::TakeProfitOrder => "TakeProfitOrder"@,
            TransactionType::TakeProfitOrderReject => "TakeProfitOrderReject"@,
            TransactionType::StopLossOrder => "StopLossOrder"@,
            TransactionType::StopLossOrderReject => "StopLossOrderReject"@,
            TransactionType::GuaranteedStopLossOrder => "GuaranteedStopLossOrder"@,
            TransactionType::GuaranteedStopLossOrderReject => "GuaranteedStopLossOrderReject"@,
            TransactionType::TrailingStopLossOrder => "TrailingStopLossOrder"@,
            TransactionType::TrailingStopLossOrderReject => "TrailingStopLossOrderReject"@,
            TransactionType::OrderFill => "OrderFill"@,
            TransactionType::OrderCancel => "OrderCancel"@,
            TransactionType::OrderCancelReject => "OrderCancelReject"@,
            TransactionType::OrderClientExtensionsModify => "OrderClientExtensionsModify"@,
            TransactionType::OrderClientExtensionsModifyReject => "OrderClientExtensionsModifyReject"@,
            TransactionType::TradeClientExtensionsModify => "TradeClientExtensionsModify"@,
            TransactionType::TradeClientExtensionsModifyReject => "TradeClientExtensionsModifyReject"@,
            TransactionType::MarginCallEnter => "MarginCallEnter"@,
            TransactionType::MarginCallExtend => "MarginCallExtend"@,
            TransactionType::MarginCallExit => "MarginCallExit"@,
            TransactionType::DelayedTradeClosure => "DelayedTradeClosure"@,
            TransactionType::DailyFinancing => "DailyFinancing"@,
            TransactionType::DividendAdjustment => "DividendAdjustment"@,
            TransactionType::ResetResettablePL => "ResetResettablePL"@,
        }
    }

    /// The name OANDA gives the transaction type.
    pub open spec fn wire_name(self) -> Seq<char> {
        match self {
            TransactionType::Create => "CREATE"@,
            TransactionType::Close => "CLOSE"@,
            TransactionType::Reopen => "REOPEN"@,
            TransactionType::ClientConfigure => "CLIENT_CONFIGURE"@,
            TransactionType::ClientConfigureReject => "CLIENT_CONFIGURE_REJECT"@,
            TransactionType::TransferFunds => "TRANSFER_FUNDS"@,
            TransactionType::TransferFundsReject => "TRANSFER_FUNDS_REJECT"@,
            TransactionType::MarketOrder => "MARKET_ORDER"@,
            TransactionType::MarketOrderReject => "MARKET_ORDER_REJECT"@,
            TransactionType::FixedPriceOrder => "FIXED_PRICE_ORDER"@,
            TransactionType::LimitOrder => "LIMIT_ORDER"@,
            TransactionType::LimitOrderReject => "LIMIT_ORDER_REJECT"@,
            TransactionType::StopOrder => "STOP_ORDER"@,
            TransactionType::StopOrderReject => "STOP_ORDER_REJECT"@,
            TransactionType::MarketIfTouchedOrder => "MARKET_IF_TOUCHED_ORDER"@,
            TransactionType::MarketIfTouchedOrderReject => "MARKET_IF_TOUCHED_ORDER_REJECT"@,
            TransactionType::TakeProfitOrder => "TAKE_PROFIT_ORDER"@,
            TransactionType::TakeProfitOrderReject => "TAKE_PROFIT_ORDER_REJECT"@,
            TransactionType::StopLossOrder => "STOP_LOSS_ORDER"@,
            TransactionType::StopLossOrderReject => "STOP_LOSS_ORDER_REJECT"@,
            TransactionType::GuaranteedStopLossOrder => "GUARANTEED_STOP_LOSS_ORDER"@,
            TransactionType::GuaranteedStopLossOrderReject => "GUARANTEED_STOP_LOSS_ORDER_REJECT"@,
            TransactionType::TrailingStopLossOrder => "TRAILING_STOP_LOSS_ORDER"@,
            TransactionType::TrailingStopLossOrderReject => "TRAILING_STOP_LOSS_ORDER_REJECT"@,
            TransactionType::OrderFill => "ORDER_FILL"@,
            TransactionType::OrderCancel => "ORDER_CANCEL"@,
            TransactionType::OrderCancelReject => "ORDER_CANCEL_REJECT"@,
            TransactionType::OrderClientExtensionsModify => "ORDER_CLIENT_EXTENSIONS_MODIFY"@,
            TransactionType::OrderClientExtensionsModifyReject => "ORDER_CLIENT_EXTENSIONS_MODIFY_REJECT"@,
            TransactionType::TradeClientExtensionsModify => "TRADE_CLIENT_EXTENSIONS_MODIFY"@,
            TransactionType::TradeClientExtensionsModifyReject => "TRADE_CLIENT_EXTENSIONS_MODIFY_REJECT"@,
            TransactionType::MarginCallEnter => "MARGIN_CALL_ENTER"@,
            TransactionType::MarginCallExtend => "MARGIN_CALL_EXTEND"@,
            TransactionType::MarginCallExit => "MARGIN_CALL_EXIT"@,
            TransactionType::DelayedTradeClosure => "DELAYED_TRADE_CLOSURE"@,
            TransactionType::DailyFinancing => "DAILY_FINANCING"@,
            TransactionType::DividendAdjustment => "DIVIDEND_ADJUSTMENT"@,
            TransactionType::ResetResettablePL => "RESET_RESETTABLE_PL"@,
        }
    }

    /// The name OANDA gives the transaction type.
    pub fn as_str(&self) -> (s: &'static str)
        ensures
            s@ == self.wire_name(),
    {
        match self {
            TransactionType::Create => "CREATE",
            TransactionType::Close => "CLOSE",
            TransactionType::Reopen => "REOPEN",
            TransactionType::ClientConfigure => "CLIENT_CONFIGURE",
            TransactionType::ClientConfigureReject => "CLIENT_CONFIGURE_REJECT",
            TransactionType::TransferFunds => "TRANSFER_FUNDS",
            TransactionType::TransferFundsReject => "TRANSFER_FUNDS_REJECT",
            TransactionType::MarketOrder => "MARKET_ORDER",
            TransactionType::MarketOrderReject => "MARKET_ORDER_REJECT",
            TransactionType::FixedPriceOrder => "FIXED_PRICE_ORDER",
            TransactionType::LimitOrder => "LIMIT_ORDER",
            TransactionType::LimitOrderReject => "LIMIT_ORDER_REJECT",
            TransactionType::StopOrder => "STOP_ORDER",
            TransactionType::StopOrderReject => "STOP_ORDER_REJECT",
            TransactionType::MarketIfTouchedOrder => "MARKET_IF_TOUCHED_ORDER",
            TransactionType::MarketIfTouchedOrderReject => "MARKET_IF_TOUCHED_ORDER_REJECT",
            TransactionType::TakeProfitOrder => "TAKE_PROFIT_ORDER",
            TransactionType::TakeProfitOrderReject => "TAKE_PROFIT_ORDER_REJECT",
            TransactionType::StopLossOrder => "STOP_LOSS_ORDER",
            TransactionType::StopLossOrderReject => "STOP_LOSS_ORDER_REJECT",
            TransactionType::GuaranteedStopLossOrder => "GUARANTEED_STOP_LOSS_ORDER",
            TransactionType::GuaranteedStopLossOrderReject => "GUARANTEED_STOP_LOSS_ORDER_REJECT",
            TransactionType::TrailingStopLossOrder => "TRAILING_STOP_LOSS_ORDER",
            TransactionType::TrailingStopLossOrderReject => "TRAILING_STOP_LOSS_ORDER_REJECT",
            TransactionType::OrderFill => "ORDER_FILL",
            TransactionType::OrderCancel => "ORDER_CANCEL",
            TransactionType::OrderCancelReject => "ORDER_CANCEL_REJECT",
            TransactionType::OrderClientExtensionsModify => "ORDER_CLIENT_EXTENSIONS_MODIFY",
            TransactionType::OrderClientExtensionsModifyReject => "ORDER_CLIENT_EXTENSIONS_MODIFY_REJECT",
            TransactionType::TradeClientExtensionsModify => "TRADE_CLIENT_EXTENSIONS_MODIFY",
            TransactionType::TradeClientExtensionsModifyReject => "TRADE_CLIENT_EXTENSIONS_MODIFY_REJECT",
            TransactionType::MarginCallEnter => "MARGIN_CALL_ENTER",
            TransactionType::MarginCallExtend => "MARGIN_CALL_EXTEND",
            TransactionType::MarginCallExit => "MARGIN_CALL_EXIT",
            TransactionType::DelayedTradeClosure => "DELAYED_TRADE_CLOSURE",
            TransactionType::DailyFinancing => "DAILY_FINANCING",
            TransactionType::DividendAdjustment => "DIVIDEND_ADJUSTMENT",
            TransactionType::ResetResettablePL => "RESET_RESETTABLE_PL",
        }
    }

    /// The name as an owned string.
    pub fn to_string(&self) -> (s: String)
        ensures
            s@ == self.wire_name(),
    {
        String::from_str(self.as_str())
    }
}

impl TransactionFilter {
    /// The name of the variant, as written in this source.
    pub open spec fn variant_name(self) -> Seq<char> {
        match self {
            TransactionFilter::Order => "Order"@,
            TransactionFilter::Funding => "Funding"@,
            TransactionFilter::Admin => "Admin"@,
            TransactionFilter::Create => "Create"@,
            TransactionFilter::Close => "Close"@,
            TransactionFilter::Reopen => "Reopen"@,
            TransactionFilter::ClientConfigure => "ClientConfigure"@,
            TransactionFilter::ClientConfigureReject => "ClientConfigureReject"@,
            TransactionFilter::TransferFunds => "TransferFunds"@,
            TransactionFilter::TransferFundsReject => "TransferFundsReject"@,
            TransactionFilter::MarketOrder => "MarketOrder"@,
            TransactionFilter::MarketOrderReject => "MarketOrderReject"@,
            TransactionFilter::LimitOrder => "LimitOrder"@,
            TransactionFilter::LimitOrderReject => "LimitOrderReject"@,
            TransactionFilter::StopOrder => "StopOrder"@,
            TransactionFilter::StopOrderReject => "StopOrderReject"@,
            TransactionFilter::MarketIfTouchedOrder => "MarketIfTouchedOrder"@,
            TransactionFilter::MarketIfTouchedOrderReject => "MarketIfTouchedOrderReject"@,
            TransactionFilter::TakeProfitOrder => "TakeProfitOrder"@,
            TransactionFilter::TakeProfitOrderReject => "TakeProfitOrderReject"@,
            TransactionFilter::StopLossOrder => "StopLossOrder"@,
            TransactionFilter::StopLossOrderReject => "StopLossOrderReject"@,
            TransactionFilter::GuaranteedStopLossOrder => "GuaranteedStopLossOrder"@,
            TransactionFilter::GuaranteedStopLossOrderReject => "GuaranteedStopLossOrderReject"@,
            TransactionFilter::TrailingStopLossOrder => "TrailingStopLossOrder"@,
            TransactionFilter::TrailingStopLossOrderReject => "TrailingStopLossOrderReject"@,
            TransactionFilter::OneCancelsAllOrder => "OneCancelsAllOrder"@,
            TransactionFilter::OneCancelsAllOrderReject => "OneCancelsAllOrderReject"@,
            TransactionFilter::OneCancelsAllOrderTriggered => "OneCancelsAllOrderTriggered"@,
            TransactionFilter::OrderFill => "OrderFill"@,
            TransactionFilter::OrderCancel => "OrderCancel"@,
            TransactionFilter::OrderCancelReject => "OrderCancelReject"@,
            TransactionFilter::OrderClientExtensionsModify => "OrderClientExtensionsModify"@,
            TransactionFilter::OrderClientExtensionsModifyReject => "OrderClientExtensionsModifyReject"@,
            TransactionFilter::TradeClientExtensionsModify => "TradeClientExtensionsModify"@,
            TransactionFilter::TradeClientExtensionsModifyReject => "TradeClientExtensionsModifyReject"@,
            TransactionFilter::MarginCallEnter => "MarginCallEnter"@,
            TransactionFilter::MarginCallExtend => "MarginCallExtend"@,
            TransactionFilter::MarginCallExit => "MarginCallExit"@,
            TransactionFilter::DelayedTradeClosure => "DelayedTradeClosure"@,
            TransactionFilter::DailyFinancing => "DailyFinancing"@,
            TransactionFilter::ResetResettablePL => "ResetResettablePL"@,
        }
    }

    /// The name OANDA gives the filter in the `type` query parameter.
    pub open spec fn wire_name(self) -> Seq<char> {
        match self {
            TransactionFilter::Order => "ORDER"@,
            TransactionFilter::Funding => "FUNDING"@,
            TransactionFilter::Admin => "ADMIN"@,
            TransactionFilter::Create => "CREATE"@,
            TransactionFilter::Close => "CLOSE"@,
            TransactionFilter::Reopen => "REOPEN"@,
            TransactionFilter::ClientConfigure => "CLIENT_CONFIGURE"@,
            TransactionFilter::ClientConfigureReject => "CLIENT_CONFIGURE_REJECT"@,
            TransactionFilter::TransferFunds => "TRANSFER_FUNDS"@,
            TransactionFilter::TransferFundsReject => "TRANSFER_FUNDS_REJECT"@,
            TransactionFilter::MarketOrder => "MARKET_ORDER"@,
            TransactionFilter::MarketOrderReject => "MARKET_ORDER_REJECT"@,
            TransactionFilter::LimitOrder => "LIMIT_ORDER"@,
            TransactionFilter::LimitOrderReject => "LIMIT_ORDER_REJECT"@,
            TransactionFilter::StopOrder => "STOP_ORDER"@,
            TransactionFilter::StopOrderReject => "STOP_ORDER_REJECT"@,
            TransactionFilter::MarketIfTouchedOrder => "MARKET_IF_TOUCHED_ORDER"@,
            TransactionFilter::MarketIfTouchedOrderReject => "MARKET_IF_TOUCHED_ORDER_REJECT"@,
            TransactionFilter::TakeProfitOrder => "TAKE_PROFIT_ORDER"@,
            TransactionFilter::TakeProfitOrderReject => "TAKE_PROFIT_ORDER_REJECT"@,
            TransactionFilter::StopLossOrder => "STOP_LOSS_ORDER"@,
            TransactionFilter::StopLossOrderReject => "STOP_LOSS_ORDER_REJECT"@,
            TransactionFilter::GuaranteedStopLossOrder => "GUARANTEED_STOP_LOSS_ORDER"@,
            TransactionFilter::GuaranteedStopLossOrderReject => "GUARANTEED_STOP_LOSS_ORDER_REJECT"@,
            TransactionFilter::TrailingStopLossOrder => "TRAILING_STOP_LOSS_ORDER"@,
            TransactionFilter::TrailingStopLossOrderReject => "TRAILING_STOP_LOSS_ORDER_REJECT"@,
            TransactionFilter::OneCancelsAllOrder => "ONE_CANCELS_ALL_ORDER"@,
            TransactionFilter::OneCancelsAllOrderReject => "ONE_CANCELS_ALL_ORDER_REJECT"@,
            TransactionFilter::OneCancelsAllOrderTriggered => "ONE_CANCELS_ALL_ORDER_TRIGGERED"@,
            TransactionFilter::OrderFill => "ORDER_FILL"@,
            TransactionFilter::OrderCancel => "ORDER_CANCEL"@,
            TransactionFilter::OrderCancelReject => "ORDER_CANCEL_REJECT"@,
            TransactionFilter::OrderClientExtensionsModify => "ORDER_CLIENT_EXTENSIONS_MODIFY"@,
            TransactionFilter::OrderClientExtensionsModifyReject => "ORDER_CLIENT_EXTENSIONS_MODIFY_REJECT"@,
            TransactionFilter::TradeClientExtensionsModify => "TRADE_CLIENT_EXTENSIONS_MODIFY"@,
            TransactionFilter::TradeClientExtensionsModifyReject => "TRADE_CLIENT_EXTENSIONS_MODIFY_REJECT"@,
            TransactionFilter::MarginCallEnter => "MARGIN_CALL_ENTER"@,
            TransactionFilter::MarginCallExtend => "MARGIN_CALL_EXTEND"@,
            TransactionFilter::MarginCallExit => "MARGIN_CALL_EXIT"@,
            TransactionFilter::DelayedTradeClosure => "DELAYED_TRADE_CLOSURE"@,
            TransactionFilter::DailyFinancing => "DAILY_FINANCING"@,
            TransactionFilter::ResetResettablePL => "RESET_RESETTABLE_PL"@,
        }
    }

    /// The name OANDA gives the filter in the `type` query parameter.
    pub fn as_str(&self) -> (s: &'static str)
        ensures
            s@ == self.wire_name(),
    {
        match self {
            TransactionFilter::Order => "ORDER",
            TransactionFilter::Funding => "FUNDING",
            TransactionFilter::Admin => "ADMIN",
            TransactionFilter::Create => "CREATE",
            TransactionFilter::Close => "CLOSE",
            TransactionFilter::Reopen => "REOPEN",
            TransactionFilter::ClientConfigure => "CLIENT_CONFIGURE",
            TransactionFilter::ClientConfigureReject => "CLIENT_CONFIGURE_REJECT",
            TransactionFilter::TransferFunds => "TRANSFER_FUNDS",
            TransactionFilter::TransferFundsReject => "TRANSFER_FUNDS_REJECT",
            TransactionFilter::MarketOrder => "MARKET_ORDER",
            TransactionFilter::MarketOrderReject => "MARKET_ORDER_REJECT",
            TransactionFilter::LimitOrder => "LIMIT_ORDER",
            TransactionFilter::LimitOrderReject => "LIMIT_ORDER_REJECT",
            TransactionFilter::StopOrder => "STOP_ORDER",
            TransactionFilter::StopOrderReject => "STOP_ORDER_REJECT",
            TransactionFilter::MarketIfTouchedOrder => "MARKET_IF_TOUCHED_ORDER",
            TransactionFilter::MarketIfTouchedOrderReject => "MARKET_IF_TOUCHED_ORDER_REJECT",
            TransactionFilter::TakeProfitOrder => "TAKE_PROFIT_ORDER",
            TransactionFilter::TakeProfitOrderReject => "TAKE_PROFIT_ORDER_REJECT",
            TransactionFilter::StopLossOrder => "STOP_LOSS_ORDER",
            TransactionFilter::StopLossOrderReject => "STOP_LOSS_ORDER_REJECT",
            TransactionFilter::GuaranteedStopLossOrder => "GUARANTEED_STOP_LOSS_ORDER",
            TransactionFilter::GuaranteedStopLossOrderReject => "GUARANTEED_STOP_LOSS_ORDER_REJECT",
            TransactionFilter::TrailingStopLossOrder => "TRAILING_STOP_LOSS_ORDER",
            TransactionFilter::TrailingStopLossOrderReject => "TRAILING_STOP_LOSS_ORDER_REJECT",
            TransactionFilter::OneCancelsAllOrder => "ONE_CANCELS_ALL_ORDER",
            TransactionFilter::OneCancelsAllOrderReject => "ONE_CANCELS_ALL_ORDER_REJECT",
            TransactionFilter::OneCancelsAllOrderTriggered => "ONE_CANCELS_ALL_ORDER_TRIGGERED",
            TransactionFilter::OrderFill => "ORDER_FILL",
            TransactionFilter::OrderCancel => "ORDER_CANCEL",
            TransactionFilter::OrderCancelReject => "ORDER_CANCEL_REJECT",
            TransactionFilter::OrderClientExtensionsModify => "ORDER_CLIENT_EXTENSIONS_MODIFY",
            TransactionFilter::OrderClientExtensionsModifyReject => "ORDER_CLIENT_EXTENSIONS_MODIFY_REJECT",
            TransactionFilter::TradeClientExtensionsModify => "TRADE_CLIENT_EXTENSIONS_MODIFY",
            TransactionFilter::TradeClientExtensionsModifyReject => "TRADE_CLIENT_EXTENSIONS_MODIFY_REJECT",
            TransactionFilter::MarginCallEnter => "MARGIN_CALL_ENTER",
            TransactionFilter::MarginCallExtend => "MARGIN_CALL_EXTEND",
            TransactionFilter::MarginCallExit => "MARGIN_CALL_EXIT",
            TransactionFilter::DelayedTradeClosure => "DELAYED_TRADE_CLOSURE",
            TransactionFilter::DailyFinancing => "DAILY_FINANCING",
            TransactionFilter::ResetResettablePL => "RESET_RESETTABLE_PL",
        }
    }

    /// The name as an owned string.
    pub fn to_string(&self) -> (s: String)
        ensures
            s@ == self.wire_name(),
    {
        String::from_str(self.as_str())
    }
}

/// Each transaction type is named on the wire by its variant name in
/// SCREAMING_SNAKE_CASE: its words in capitals joined by `_`, as
/// `MarketOrder` is named `MARKET_ORDER` and `ResetResettablePL`
/// `RESET_RESETTABLE_PL`.
pub proof fn lemma_type_wire_name_is_screaming_snake(t: TransactionType)
    ensures
        t.wire_name() == screaming_snake(t.variant_name()),
{
    if t is Create || t is Close || t is Reopen {
        type_wire_names_1(t);
    }     else if t is ClientConfigure || t is ClientConfigureReject || t is TransferFunds {
        type_wire_names_2(t);
    }     else if t is TransferFundsReject || t is MarketOrder || t is MarketOrderReject {
        type_wire_names_3(t);
    }     else if t is FixedPriceOrder || t is LimitOrder || t is LimitOrderReject {
        type_wire_names_4(t);
    }     else if t is StopOrder || t is StopOrderReject || t is MarketIfTouchedOrder {
        type_wire_names_5(t);
    }     else if t is MarketIfTouchedOrderReject || t is TakeProfitOrder || t is TakeProfitOrderReject {
        type_wire_names_6(t);
    }     else if t is StopLossOrder || t is StopLossOrderReject || t is GuaranteedStopLossOrder {
        type_wire_names_7(t);
    }     else if t is GuaranteedStopLossOrderReject || t is TrailingStopLossOrder || t is TrailingStopLossOrderReject {
        type_wire_names_8(t);
    }     else if t is OrderFill || t is OrderCancel || t is OrderCancelReject {
        type_wire_names_9(t);
    }     else if t is OrderClientExtensionsModify || t is OrderClientExtensionsModifyReject || t is TradeClientExtensionsModify {
        type_wire_names_10(t);
    }     else if t is TradeClientExtensionsModifyReject || t is MarginCallEnter || t is MarginCallExtend {
        type_wire_names_11(t);
    }     else if t is MarginCallExit || t is DelayedTradeClosure || t is DailyFinancing {
        type_wire_names_12(t);
    }     else if t is DividendAdjustment || t is ResetResettablePL {
        type_wire_names_13(t);
    }
}

/// The wire names of some of the transaction types are their variant names in
/// SCREAMING_SNAKE_CASE.
#[verifier::rlimit(100)]
proof fn type_wire_names_1(t: TransactionType)
    requires
        t is Create || t is Close || t is Reopen,
    ensures
        t.wire_name() == screaming_snake(t.variant_name()),
{
    match t {
        TransactionType::Create => {
            assert(screaming_snake("Create"@) =~= "CREATE"@) by {
                reveal_with_fuel(screaming_snake_prefix, 7);
                reveal_strlit("Create");
                reveal_strlit("CREATE");
            }
        },
        TransactionType::Close => {
            assert(screaming_snake("Close"@) =~= "CLOSE"@) by {
                reveal_with_fuel(screaming_snake_prefix, 6);
                reveal_strlit("Close");
                reveal_strlit("CLOSE");
            }
        },
        TransactionType::Reopen => {
            assert(screaming_snake("Reopen"@) =~= "REOPEN"@) by {
                reveal_with_fuel(screaming_snake_prefix, 7);
                reveal_strlit("Reopen");
                reveal_strlit("REOPEN");
            }
        },
        _ => {},
    }
}

/// The wire names of some of the transaction types are their variant names in
/// SCREAMING_SNAKE_CASE.
#[verifier::rlimit(100)]
proof fn type_wire_names_2(t: TransactionType)
    requires
        t is ClientConfigure || t is ClientConfigureReject || t is TransferFunds,
    ensures
        t.wire_name() == screaming_snake(t.variant_name()),
{
    match t {
        TransactionType::ClientConfigure => {
            assert(screaming_snake("ClientConfigure"@) =~= "CLIENT_CONFIGURE"@) by {
                reveal_with_fuel(screaming_snake_prefix, 16);
                reveal_strlit("ClientConfigure");
                reveal_strlit("CLIENT_CONFIGURE");
            }
        },
        TransactionType::ClientConfigureReject => {
            assert(screaming_snake("ClientConfigureReject"@) =~= "CLIENT_CONFIGURE_REJECT"@) by {
                reveal_with_fuel(screaming_snake_prefix, 22);
                reveal_strlit("ClientConfigureReject");
                reveal_strlit("CLIENT_CONFIGURE_REJECT");
            }
        },
        TransactionType::TransferFunds => {
            assert(screaming_snake("TransferFunds"@) =~= "TRANSFER_FUNDS"@) by {
                reveal_with_fuel(screaming_snake_prefix, 14);
                reveal_strlit("TransferFunds");
                reveal_strlit("TRANSFER_FUNDS");
            }
        },
        _ => {},
    }
}

/// The wire names of some of the transaction types are their variant names in
/// SCREAMING_SNAKE_CASE.
#[verifier::rlimit(100)]
proof fn type_wire_names_3(t: TransactionType)
    requires
        t is TransferFundsReject || t is MarketOrder || t is MarketOrderReject,
    ensures
        t.wire_name() == screaming_snake(t.variant_name()),
{
    match t {
        TransactionType::TransferFundsReject => {
            assert(screaming_snake("TransferFundsReject"@) =~= "TRANSFER_FUNDS_REJECT"@) by {
                reveal_with_fuel(screaming_snake_prefix, 20);
                reveal_strlit("TransferFundsReject");
                reveal_strlit("TRANSFER_FUNDS_REJECT");
            }
        },
        TransactionType::MarketOrder => {
            assert(screaming_snake("MarketOrder"@) =~= "MARKET_ORDER"@) by {
                reveal_with_fuel(screaming_snake_prefix, 12);
                reveal_strlit("MarketOrder");
                reveal_strlit("MARKET_ORDER");
            }
        },
        TransactionType::MarketOrderReject => {
            assert(screaming_snake("MarketOrderReject"@) =~= "MARKET_ORDER_REJECT"@) by {
                reveal_with_fuel(screaming_snake_prefix, 18);
                reveal_strlit("MarketOrderReject");
                reveal_strlit("MARKET_ORDER_REJECT");
            }
        },
        _ => {},
    }
}

/// The wire names of some of the transaction types are their variant names in
/// SCREAMING_SNAKE_CASE.
#[verifier::rlimit(100)]
proof fn type_wire_names_4(t: TransactionType)
    requires
        t is FixedPriceOrder || t is LimitOrder || t is LimitOrderReject,
    ensures
        t.wire_name() == screaming_snake(t.variant_name()),
{
    match t {
        TransactionType::FixedPriceOrder => {
            assert(screaming_snake("FixedPriceOrder"@) =~= "FIXED_PRICE_ORDER"@) by {
                reveal_with_fuel(screaming_snake_prefix, 16);
                reveal_strlit("FixedPriceOrder");
                reveal_strlit("FIXED_PRICE_ORDER");
            }
        },
        TransactionType::LimitOrder => {
            assert(screaming_snake("LimitOrder"@) =~= "LIMIT_ORDER"@) by {
                reveal_with_fuel(screaming_snake_prefix, 11);
                reveal_strlit("LimitOrder");
                reveal_strlit("LIMIT_ORDER");
            }
        },
        TransactionType::LimitOrderReject => {
            assert(screaming_snake("LimitOrderReject"@) =~= "LIMIT_ORDER_REJECT"@) by {
                reveal_with_fuel(screaming_snake_prefix, 17);
                reveal_strlit("LimitOrderReject");
                reveal_strlit("LIMIT_ORDER_REJECT");
            }
        },
        _ => {},
    }
}

/// The wire names of some of the transaction types are their variant names in
/// SCREAMING_SNAKE_CASE.
#[verifier::rlimit(100)]
proof fn type_wire_names_5(t: TransactionType)
    requires
        t is StopOrder || t is StopOrderReject || t is MarketIfTouchedOrder,
    ensures
        t.wire_name() == screaming_snake(t.variant_name()),
{
    match t {
        TransactionType::StopOrder => {
            assert(screaming_snake("StopOrder"@) =~= "STOP_ORDER"@) by {
                reveal_with_fuel(screaming_snake_prefix, 10);
                reveal_strlit("StopOrder");
                reveal_strlit("STOP_ORDER");
            }
        },
        TransactionType::StopOrderReject => {
            assert(screaming_snake("StopOrderReject"@) =~= "STOP_ORDER_REJECT"@) by {
                reveal_with_fuel(screaming_snake_prefix, 16);
                reveal_strlit("StopOrderReject");
                reveal_strlit("STOP_ORDER_REJECT");
            }
        },
        TransactionType::MarketIfTouchedOrder => {
            assert(screaming_snake("MarketIfTouchedOrder"@) =~= "MARKET_IF_TOUCHED_ORDER"@) by {
                reveal_with_fuel(screaming_snake_prefix, 21);
                reveal_strlit("MarketIfTouchedOrder");
                reveal_strlit("MARKET_IF_TOUCHED_ORDER");
            }
        },
        _ => {},
    }
}

/// The wire names of some of the transaction types are their variant names in
/// SCREAMING_SNAKE_CASE.
#[verifier::rlimit(100)]
proof fn type_wire_names_6(t: TransactionType)
    requires
        t is MarketIfTouchedOrderReject || t is TakeProfitOrder || t is TakeProfitOrderReject,
    ensures
        t.wire_name() == screaming_snake(t.variant_name()),
{
    match t {
        TransactionType::MarketIfTouchedOrderReject => {
            assert(screaming_snake("MarketIfTouchedOrderReject"@) =~= "MARKET_IF_TOUCHED_ORDER_REJECT"@) by {
                reveal_with_fuel(screaming_snake_prefix, 27);
                reveal_strlit("MarketIfTouchedOrderReject");
                reveal_strlit("MARKET_IF_TOUCHED_ORDER_REJECT");
            }
        },
        TransactionType::TakeProfitOrder => {
            assert(screaming_snake("TakeProfitOrder"@) =~= "TAKE_PROFIT_ORDER"@) by {
                reveal_with_fuel(screaming_snake_prefix, 16);
                reveal_strlit("TakeProfitOrder");
                reveal_strlit("TAKE_PROFIT_ORDER");
            }
        },
        TransactionType::TakeProfitOrderReject => {
            assert(screaming_snake("TakeProfitOrderReject"@) =~= "TAKE_PROFIT_ORDER_REJECT"@) by {
                reveal_with_fuel(screaming_snake_prefix, 22);
                reveal_strlit("TakeProfitOrderReject");
                reveal_strlit("TAKE_PROFIT_ORDER_REJECT");
            }
        },
        _ => {},
    }
}

/// The wire names of some of the transaction types are their variant names in
/// SCREAMING_SNAKE_CASE.
#[verifier::rlimit(100)]
proof fn type_wire_names_7(t: TransactionType)
    requires
        t is StopLossOrder || t is StopLossOrderReject || t is GuaranteedStopLossOrder,
    ensures
        t.wire_name() == screaming_snake(t.variant_name()),
{
    match t {
        TransactionType::StopLossOrder => {
            assert(screaming_snake("StopLossOrder"@) =~= "STOP_LOSS_ORDER"@) by {
                reveal_with_fuel(screaming_snake_prefix, 14);
                reveal_strlit("StopLossOrder");
                reveal_strlit("STOP_LOSS_ORDER");
            }
        },
        TransactionType::StopLossOrderReject => {
            assert(screaming_snake("StopLossOrderReject"@) =~= "STOP_LOSS_ORDER_REJECT"@) by {
                reveal_with_fuel(screaming_snake_prefix, 20);
                reveal_strlit("StopLossOrderReject");
                reveal_strlit("STOP_LOSS_ORDER_REJECT");
            }
        },
        TransactionType::GuaranteedStopLossOrder => {
            assert(screaming_snake("GuaranteedStopLossOrder"@) =~= "GUARANTEED_STOP_LOSS_ORDER"@) by {
                reveal_with_fuel(screaming_snake_prefix, 24);
                reveal_strlit("GuaranteedStopLossOrder");
                reveal_strlit("GUARANTEED_STOP_LOSS_ORDER");
            }
        },
        _ => {},
    }
}

/// The wire names of some of the transaction types are their variant names in
/// SCREAMING_SNAKE_CASE.
#[verifier::rlimit(100)]
proof fn type_wire_names_8(t: TransactionType)
    requires
        t is GuaranteedStopLossOrderReject || t is TrailingStopLossOrder || t is TrailingStopLossOrderReject,
    ensures
        t.wire_name() == screaming_snake(t.variant_name()),
{
    match t {
        TransactionType::GuaranteedStopLossOrderReject => {
            assert(screaming_snake("GuaranteedStopLossOrderReject"@) =~= "GUARANTEED_STOP_LOSS_ORDER_REJECT"@) by {
                reveal_with_fuel(screaming_snake_prefix, 30);
                reveal_strlit("GuaranteedStopLossOrderReject");
                reveal_strlit("GUARANTEED_STOP_LOSS_ORDER_REJECT");
            }
        },
        TransactionType::TrailingStopLossOrder => {
            assert(screaming_snake("TrailingStopLossOrder"@) =~= "TRAILING_STOP_LOSS_ORDER"@) by {
                reveal_with_fuel(screaming_snake_prefix, 22);
                reveal_strlit("TrailingStopLossOrder");
                reveal_strlit("TRAILING_STOP_LOSS_ORDER");
            }
        },
        TransactionType::TrailingStopLossOrderReject => {
            assert(screaming_snake("TrailingStopLossOrderReject"@) =~= "TRAILING_STOP_LOSS_ORDER_REJECT"@) by {
                reveal_with_fuel(screaming_snake_prefix, 28);
                reveal_strlit("TrailingStopLossOrderReject");
                reveal_strlit("TRAILING_STOP_LOSS_ORDER_REJECT");
            }
        },
        _ => {},
    }
}

/// The wire names of some of the transaction types are their variant names in
/// SCREAMING_SNAKE_CASE.
#[verifier::rlimit(100)]
proof fn type_wire_names_9(t: TransactionType)
    requires
        t is OrderFill || t is OrderCancel || t is OrderCancelReject,
    ensures
        t.wire_name() == screaming_snake(t.variant_name()),
{
    match t {
        TransactionType::OrderFill => {
            assert(screaming_snake("OrderFill"@) =~= "ORDER_FILL"@) by {
                reveal_with_fuel(screaming_snake_prefix, 10);
                reveal_strlit("OrderFill");
                reveal_strlit("ORDER_FILL");
            }
        },
        TransactionType::OrderCancel => {
            assert(screaming_snake("OrderCancel"@) =~= "ORDER_CANCEL"@) by {
                reveal_with_fuel(screaming_snake_prefix, 12);
                reveal_strlit("OrderCancel");
                reveal_strlit("ORDER_CANCEL");
            }
        },
        TransactionType::OrderCancelReject => {
            assert(screaming_snake("OrderCancelReject"@) =~= "ORDER_CANCEL_REJECT"@) by {
                reveal_with_fuel(screaming_snake_prefix, 18);
                reveal_strlit("OrderCancelReject");
                reveal_strlit("ORDER_CANCEL_REJECT");
            }
        },
        _ => {},
    }
}

/// The wire names of some of the transaction types are their variant names in
/// SCREAMING_SNAKE_CASE.
#[verifier::rlimit(100)]
proof fn type_wire_names_10(t: TransactionType)
    requires
        t is OrderClientExtensionsModify || t is OrderClientExtensionsModifyReject || t is TradeClientExtensionsModify,
    ensures
        t.wire_name() == screaming_snake(t.variant_name()),
{
    match t {
        TransactionType::OrderClientExtensionsModify => {
            assert(screaming_snake("OrderClientExtensionsModify"@) =~= "ORDER_CLIENT_EXTENSIONS_MODIFY"@) by {
                reveal_with_fuel(screaming_snake_prefix, 28);
                reveal_strlit("OrderClientExtensionsModify");
                reveal_strlit("ORDER_CLIENT_EXTENSIONS_MODIFY");
            }
        },
        TransactionType::OrderClientExtensionsModifyReject => {
            assert(screaming_snake("OrderClientExtensionsModifyReject"@) =~= "ORDER_CLIENT_EXTENSIONS_MODIFY_REJECT"@) by {
                reveal_with_fuel(screaming_snake_prefix, 34);
                reveal_strlit("OrderClientExtensionsModifyReject");
                reveal_strlit("ORDER_CLIENT_EXTENSIONS_MODIFY_REJECT");
            }
        },
        TransactionType::TradeClientExtensionsModify => {
            assert(screaming_snake("TradeClientExtensionsModify"@) =~= "TRADE_CLIENT_EXTENSIONS_MODIFY"@) by {
                reveal_with_fuel(screaming_snake_prefix, 28);
                reveal_strlit("TradeClientExtensionsModify");
                reveal_strlit("TRADE_CLIENT_EXTENSIONS_MODIFY");
            }
        },
        _ => {},
    }
}

/// The wire names of some of the transaction types are their variant names in
/// SCREAMING_SNAKE_CASE.
#[verifier::rlimit(100)]
proof fn type_wire_names_11(t: TransactionType)
    requires
        t is TradeClientExtensionsModifyReject || t is MarginCallEnter || t is MarginCallExtend,
    ensures
        t.wire_name() == screaming_snake(t.variant_name()),
{
    match t {
        TransactionType::TradeClientExtensionsModifyReject => {
            assert(screaming_snake("TradeClientExtensionsModifyReject"@) =~= "TRADE_CLIENT_EXTENSIONS_MODIFY_REJECT"@) by {
                reveal_with_fuel(screaming_snake_prefix, 34);
                reveal_strlit("TradeClientExtensionsModifyReject");
                reveal_strlit("TRADE_CLIENT_EXTENSIONS_MODIFY_REJECT");
            }
        },
        TransactionType::MarginCallEnter => {
            assert(screaming_snake("MarginCallEnter"@) =~= "MARGIN_CALL_ENTER"@) by {
                reveal_with_fuel(screaming_snake_prefix, 16);
                reveal_strlit("MarginCallEnter");
                reveal_strlit("MARGIN_CALL_ENTER");
            }
        },
        TransactionType::MarginCallExtend => {
            assert(screaming_snake("MarginCallExtend"@) =~= "MARGIN_CALL_EXTEND"@) by {
                reveal_with_fuel(screaming_snake_prefix, 17);
                reveal_strlit("MarginCallExtend");
                reveal_strlit("MARGIN_CALL_EXTEND");
            }
        },
        _ => {},
    }
}

/// The wire names of some of the transaction types are their variant names in
/// SCREAMING_SNAKE_CASE.
#[verifier::rlimit(100)]
proof fn type_wire_names_12(t: TransactionType)
    requires
        t is MarginCallExit || t is DelayedTradeClosure || t is DailyFinancing,
    ensures
        t.wire_name() == screaming_snake(t.variant_name()),
{
    match t {
        TransactionType::MarginCallExit => {
            assert(screaming_snake("MarginCallExit"@) =~= "MARGIN_CALL_EXIT"@) by {
                reveal_with_fuel(screaming_snake_prefix, 15);
                reveal_strlit("MarginCallExit");
                reveal_strlit("MARGIN_CALL_EXIT");
            }
        },
        TransactionType::DelayedTradeClosure => {
            assert(screaming_snake("DelayedTradeClosure"@) =~= "DELAYED_TRADE_CLOSURE"@) by {
                reveal_with_fuel(screaming_snake_prefix, 20);
                reveal_strlit("DelayedTradeClosure");
                reveal_strlit("DELAYED_TRADE_CLOSURE");
            }
        },
        TransactionType::DailyFinancing => {
            assert(screaming_snake("DailyFinancing"@) =~= "DAILY_FINANCING"@) by {
                reveal_with_fuel(screaming_snake_prefix, 15);
                reveal_strlit("DailyFinancing");
                reveal_strlit("DAILY_FINANCING");
            }
        },
        _ => {},
    }
}

/// The wire names of some of the transaction types are their variant names in
/// SCREAMING_SNAKE_CASE.
#[verifier::rlimit(100)]
proof fn type_wire_names_13(t: TransactionType)
    requires
        t is DividendAdjustment || t is ResetResettablePL,
    ensures
        t.wire_name() == screaming_snake(t.variant_name()),
{
    match t {
        TransactionType::DividendAdjustment => {
            assert(screaming_snake("DividendAdjustment"@) =~= "DIVIDEND_ADJUSTMENT"@) by {
                reveal_with_fuel(screaming_snake_prefix, 19);
                reveal_strlit("DividendAdjustment");
                reveal_strlit("DIVIDEND_ADJUSTMENT");
            }
        },
        TransactionType::ResetResettablePL => {
            assert(screaming_snake("ResetResettablePL"@) =~= "RESET_RESETTABLE_PL"@) by {
                reveal_with_fuel(screaming_snake_prefix, 18);
                reveal_strlit("ResetResettablePL");
                reveal_strlit("RESET_RESETTABLE_PL");
            }
        },
        _ => {},
    }
}

/// Each filter is named on the wire by its variant name in
/// SCREAMING_SNAKE_CASE: its words in capitals joined by `_`, as
/// `MarketOrder` is named `MARKET_ORDER` and `ResetResettablePL`
/// `RESET_RESETTABLE_PL`.
pub proof fn lemma_filter_wire_name_is_screaming_snake(f: TransactionFilter)
    ensures
        f.wire_name() == screaming_snake(f.variant_name()),
{
    if f is Order || f is Funding || f is Admin {
        filter_wire_names_1(f);
    }     else if f is Create || f is Close || f is Reopen {
        filter_wire_names_2(f);
    }     else if f is ClientConfigure || f is ClientConfigureReject || f is TransferFunds {
        filter_wire_names_3(f);
    }     else if f is TransferFundsReject || f is MarketOrder || f is MarketOrderReject {
        filter_wire_names_4(f);
    }     else if f is LimitOrder || f is LimitOrderReject || f is StopOrder {
        filter_wire_names_5(f);
    }     else if f is StopOrderReject || f is MarketIfTouchedOrder || f is MarketIfTouchedOrderReject {
        filter_wire_names_6(f);
    }     else if f is TakeProfitOrder || f is TakeProfitOrderReject || f is StopLossOrder {
        filter_wire_names_7(f);
    }     else if f is StopLossOrderReject || f is GuaranteedStopLossOrder || f is GuaranteedStopLossOrderReject {
        filter_wire_names_8(f);
    }     else if f is TrailingStopLossOrder || f is TrailingStopLossOrderReject || f is OneCancelsAllOrder {
        filter_wire_names_9(f);
    }     else if f is OneCancelsAllOrderReject || f is OneCancelsAllOrderTriggered || f is OrderFill {
        filter_wire_names_10(f);
    }     else if f is OrderCancel || f is OrderCancelReject || f is OrderClientExtensionsModify {
        filter_wire_names_11(f);
    }     else if f is OrderClientExtensionsModifyReject || f is TradeClientExtensionsModify || f is TradeClientExtensionsModifyReject {
        filter_wire_names_12(f);
    }     else if f is MarginCallEnter || f is MarginCallExtend || f is MarginCallExit {
        filter_wire_names_13(f);
    }     else if f is DelayedTradeClosure || f is DailyFinancing || f is ResetResettablePL {
        filter_wire_names_14(f);
    }
}

/// The wire names of some of the filters are their variant names in
/// SCREAMING_SNAKE_CASE.
#[verifier::rlimit(100)]
proof fn filter_wire_names_1(f: TransactionFilter)
    requires
        f is Order || f is Funding || f is Admin,
    ensures
        f.wire_name() == screaming_snake(f.variant_name()),
{
    match f {
        TransactionFilter::Order => {
            assert(screaming_snake("Order"@) =~= "ORDER"@) by {
                reveal_with_fuel(screaming_snake_prefix, 6);
                reveal_strlit("Order");
                reveal_strlit("ORDER");
            }
        },
        TransactionFilter::Funding => {
            assert(screaming_snake("Funding"@) =~= "FUNDING"@) by {
                reveal_with_fuel(screaming_snake_prefix, 8);
                reveal_strlit("Funding");
                reveal_strlit("FUNDING");
            }
        },
        TransactionFilter::Admin => {
            assert(screaming_snake("Admin"@) =~= "ADMIN"@) by {
                reveal_with_fuel(screaming_snake_prefix, 6);
                reveal_strlit("Admin");
                reveal_strlit("ADMIN");
            }
        },
        _ => {},
    }
}

/// The wire names of some of the filters are their variant names in
/// SCREAMING_SNAKE_CASE.
#[verifier::rlimit(100)]
proof fn filter_wire_names_2(f: TransactionFilter)
    requires
        f is Create || f is Close || f is Reopen,
    ensures
        f.wire_name() == screaming_snake(f.variant_name()),
{
    match f {
        TransactionFilter::Create => {
            assert(screaming_snake("Create"@) =~= "CREATE"@) by {
                reveal_with_fuel(screaming_snake_prefix, 7);
                reveal_strlit("Create");
                reveal_strlit("CREATE");
            }
        },
        TransactionFilter::Close => {
            assert(screaming_snake("Close"@) =~= "CLOSE"@) by {
                reveal_with_fuel(screaming_snake_prefix, 6);
                reveal_strlit("Close");
                reveal_strlit("CLOSE");
            }
        },
        TransactionFilter::Reopen => {
            assert(screaming_snake("Reopen"@) =~= "REOPEN"@) by {
                reveal_with_fuel(screaming_snake_prefix, 7);
                reveal_strlit("Reopen");
                reveal_strlit("REOPEN");
            }
        },
        _ => {},
    }
}

/// The wire names of some of the filters are their variant names in
/// SCREAMING_SNAKE_CASE.
#[verifier::rlimit(100)]
proof fn filter_wire_names_3(f: TransactionFilter)
    requires
        f is ClientConfigure || f is ClientConfigureReject || f is TransferFunds,
    ensures
        f.wire_name() == screaming_snake(f.variant_name()),
{
    match f {
        TransactionFilter::ClientConfigure => {
            assert(screaming_snake("ClientConfigure"@) =~= "CLIENT_CONFIGURE"@) by {
                reveal_with_fuel(screaming_snake_prefix, 16);
                reveal_strlit("ClientConfigure");
                reveal_strlit("CLIENT_CONFIGURE");
            }
        },
        TransactionFilter::ClientConfigureReject => {
            assert(screaming_snake("ClientConfigureReject"@) =~= "CLIENT_CONFIGURE_REJECT"@) by {
                reveal_with_fuel(screaming_snake_prefix, 22);
                reveal_strlit("ClientConfigureReject");
                reveal_strlit("CLIENT_CONFIGURE_REJECT");
            }
        },
        TransactionFilter::TransferFunds => {
            assert(screaming_snake("TransferFunds"@) =~= "TRANSFER_FUNDS"@) by {
                reveal_with_fuel(screaming_snake_prefix, 14);
                reveal_strlit("TransferFunds");
                reveal_strlit("TRANSFER_FUNDS");
            }
        },
        _ => {},
    }
}

/// The wire names of some of the filters are their variant names in
/// SCREAMING_SNAKE_CASE.
#[verifier::rlimit(100)]
proof fn filter_wire_names_4(f: TransactionFilter)
    requires
        f is TransferFundsReject || f is MarketOrder || f is MarketOrderReject,
    ensures
        f.wire_name() == screaming_snake(f.variant_name()),
{
    match f {
        TransactionFilter::TransferFundsReject => {
            assert(screaming_snake("TransferFundsReject"@) =~= "TRANSFER_FUNDS_REJECT"@) by {
                reveal_with_fuel(screaming_snake_prefix, 20);
                reveal_strlit("TransferFundsReject");
                reveal_strlit("TRANSFER_FUNDS_REJECT");
            }
        },
        TransactionFilter::MarketOrder => {
            assert(screaming_snake("MarketOrder"@) =~= "MARKET_ORDER"@) by {
                reveal_with_fuel(screaming_snake_prefix, 12);
                reveal_strlit("MarketOrder");
                reveal_strlit("MARKET_ORDER");
            }
        },
        TransactionFilter::MarketOrderReject => {
            assert(screaming_snake("MarketOrderReject"@) =~= "MARKET_ORDER_REJECT"@) by {
                reveal_with_fuel(screaming_snake_prefix, 18);
                reveal_strlit("MarketOrderReject");
                reveal_strlit("MARKET_ORDER_REJECT");
            }
        },
        _ => {},
    }
}

/// The wire names of some of the filters are their variant names in
/// SCREAMING_SNAKE_CASE.
#[verifier::rlimit(100)]
proof fn filter_wire_names_5(f: TransactionFilter)
    requires
        f is LimitOrder || f is LimitOrderReject || f is StopOrder,
    ensures
        f.wire_name() == screaming_snake(f.variant_name()),
{
    match f {
        TransactionFilter::LimitOrder => {
            assert(screaming_snake("LimitOrder"@) =~= "LIMIT_ORDER"@) by {
                reveal_with_fuel(screaming_snake_prefix, 11);
                reveal_strlit("LimitOrder");
                reveal_strlit("LIMIT_ORDER");
            }
        },
        TransactionFilter::LimitOrderReject => {
            assert(screaming_snake("LimitOrderReject"@) =~= "LIMIT_ORDER_REJECT"@) by {
                reveal_with_fuel(screaming_snake_prefix, 17);
                reveal_strlit("LimitOrderReject");
                reveal_strlit("LIMIT_ORDER_REJECT");
            }
        },
        TransactionFilter::StopOrder => {
            assert(screaming_snake("StopOrder"@) =~= "STOP_ORDER"@) by {
                reveal_with_fuel(screaming_snake_prefix, 10);
                reveal_strlit("StopOrder");
                reveal_strlit("STOP_ORDER");
            }
        },
        _ => {},
    }
}

/// The wire names of some of the filters are their variant names in
/// SCREAMING_SNAKE_CASE.
#[verifier::rlimit(100)]
proof fn filter_wire_names_6(f: TransactionFilter)
    requires
        f is StopOrderReject || f is MarketIfTouchedOrder || f is MarketIfTouchedOrderReject,
    ensures
        f.wire_name() == screaming_snake(f.variant_name()),
{
    match f {
        TransactionFilter::StopOrderReject => {
            assert(screaming_snake("StopOrderReject"@) =~= "STOP_ORDER_REJECT"@) by {
                reveal_with_fuel(screaming_snake_prefix, 16);
                reveal_strlit("StopOrderReject");
                reveal_strlit("STOP_ORDER_REJECT");
            }
        },
        TransactionFilter::MarketIfTouchedOrder => {
            assert(screaming_snake("MarketIfTouchedOrder"@) =~= "MARKET_IF_TOUCHED_ORDER"@) by {
                reveal_with_fuel(screaming_snake_prefix, 21);
                reveal_strlit("MarketIfTouchedOrder");
                reveal_strlit("MARKET_IF_TOUCHED_ORDER");
            }
        },
        TransactionFilter::MarketIfTouchedOrderReject => {
            assert(screaming_snake("MarketIfTouchedOrderReject"@) =~= "MARKET_IF_TOUCHED_ORDER_REJECT"@) by {
                reveal_with_fuel(screaming_snake_prefix, 27);
                reveal_strlit("MarketIfTouchedOrderReject");
                reveal_strlit("MARKET_IF_TOUCHED_ORDER_REJECT");
            }
        },
        _ => {},
    }
}

/// The wire names of some of the filters are their variant names in
/// SCREAMING_SNAKE_CASE.
#[verifier::rlimit(100)]
proof fn filter_wire_names_7(f: TransactionFilter)
    requires
        f is TakeProfitOrder || f is TakeProfitOrderReject || f is StopLossOrder,
    ensures
        f.wire_name() == screaming_snake(f.variant_name()),
{
    match f {
        TransactionFilter::TakeProfitOrder => {
            assert(screaming_snake("TakeProfitOrder"@) =~= "TAKE_PROFIT_ORDER"@) by {
                reveal_with_fuel(screaming_snake_prefix, 16);
                reveal_strlit("TakeProfitOrder");
                reveal_strlit("TAKE_PROFIT_ORDER");
            }
        },
        TransactionFilter::TakeProfitOrderReject => {
            assert(screaming_snake("TakeProfitOrderReject"@) =~= "TAKE_PROFIT_ORDER_REJECT"@) by {
                reveal_with_fuel(screaming_snake_prefix, 22);
                reveal_strlit("TakeProfitOrderReject");
                reveal_strlit("TAKE_PROFIT_ORDER_REJECT");
            }
        },
        TransactionFilter::StopLossOrder => {
            assert(screaming_snake("StopLossOrder"@) =~= "STOP_LOSS_ORDER"@) by {
                reveal_with_fuel(screaming_snake_prefix, 14);
                reveal_strlit("StopLossOrder");
                reveal_strlit("STOP_LOSS_ORDER");
            }
        },
        _ => {},
    }
}

/// The wire names of some of the filters are their variant names in
/// SCREAMING_SNAKE_CASE.
#[verifier::rlimit(100)]
proof fn filter_wire_names_8(f: TransactionFilter)
    requires
        f is StopLossOrderReject || f is GuaranteedStopLossOrder || f is GuaranteedStopLossOrderReject,
    ensures
        f.wire_name() == screaming_snake(f.variant_name()),
{
    match f {
        TransactionFilter::StopLossOrderReject => {
            assert(screaming_snake("StopLossOrderReject"@) =~= "STOP_LOSS_ORDER_REJECT"@) by {
                reveal_with_fuel(screaming_snake_prefix, 20);
                reveal_strlit("StopLossOrderReject");
                reveal_strlit("STOP_LOSS_ORDER_REJECT");
            }
        },
        TransactionFilter::GuaranteedStopLossOrder => {
            assert(screaming_snake("GuaranteedStopLossOrder"@) =~= "GUARANTEED_STOP_LOSS_ORDER"@) by {
                reveal_with_fuel(screaming_snake_prefix, 24);
                reveal_strlit("GuaranteedStopLossOrder");
                reveal_strlit("GUARANTEED_STOP_LOSS_ORDER");
            }
        },
        TransactionFilter::GuaranteedStopLossOrderReject => {
            assert(screaming_snake("GuaranteedStopLossOrderReject"@) =~= "GUARANTEED_STOP_LOSS_ORDER_REJECT"@) by {
                reveal_with_fuel(screaming_snake_prefix, 30);
                reveal_strlit("GuaranteedStopLossOrderReject");
                reveal_strlit("GUARANTEED_STOP_LOSS_ORDER_REJECT");
            }
        },
        _ => {},
    }
}

/// The wire names of some of the filters are their variant names in
/// SCREAMING_SNAKE_CASE.
#[verifier::rlimit(100)]
proof fn filter_wire_names_9(f: TransactionFilter)
    requires
        f is TrailingStopLossOrder || f is TrailingStopLossOrderReject || f is OneCancelsAllOrder,
    ensures
        f.wire_name() == screaming_snake(f.variant_name()),
{
    match f {
        TransactionFilter::TrailingStopLossOrder => {
            assert(screaming_snake("TrailingStopLossOrder"@) =~= "TRAILING_STOP_LOSS_ORDER"@) by {
                reveal_with_fuel(screaming_snake_prefix, 22);
                reveal_strlit("TrailingStopLossOrder");
                reveal_strlit("TRAILING_STOP_LOSS_ORDER");
            }
        },
        TransactionFilter::TrailingStopLossOrderReject => {
            assert(screaming_snake("TrailingStopLossOrderReject"@) =~= "TRAILING_STOP_LOSS_ORDER_REJECT"@) by {
                reveal_with_fuel(screaming_snake_prefix, 28);
                reveal_strlit("TrailingStopLossOrderReject");
                reveal_strlit("TRAILING_STOP_LOSS_ORDER_REJECT");
            }
        },
        TransactionFilter::OneCancelsAllOrder => {
            assert(screaming_snake("OneCancelsAllOrder"@) =~= "ONE_CANCELS_ALL_ORDER"@) by {
                reveal_with_fuel(screaming_snake_prefix, 19);
                reveal_strlit("OneCancelsAllOrder");
                reveal_strlit("ONE_CANCELS_ALL_ORDER");
            }
        },
        _ => {},
    }
}

/// The wire names of some of the filters are their variant names in
/// SCREAMING_SNAKE_CASE.
#[verifier::rlimit(100)]
proof fn filter_wire_names_10(f: TransactionFilter)
    requires
        f is OneCancelsAllOrderReject || f is OneCancelsAllOrderTriggered || f is OrderFill,
    ensures
        f.wire_name() == screaming_snake(f.variant_name()),
{
    match f {
        TransactionFilter::OneCancelsAllOrderReject => {
            assert(screaming_snake("OneCancelsAllOrderReject"@) =~= "ONE_CANCELS_ALL_ORDER_REJECT"@) by {
                reveal_with_fuel(screaming_snake_prefix, 25);
                reveal_strlit("OneCancelsAllOrderReject");
                reveal_strlit("ONE_CANCELS_ALL_ORDER_REJECT");
            }
        },
        TransactionFilter::OneCancelsAllOrderTriggered => {
            assert(screaming_snake("OneCancelsAllOrderTriggered"@) =~= "ONE_CANCELS_ALL_ORDER_TRIGGERED"@) by {
                reveal_with_fuel(screaming_snake_prefix, 28);
                reveal_strlit("OneCancelsAllOrderTriggered");
                reveal_strlit("ONE_CANCELS_ALL_ORDER_TRIGGERED");
            }
        },
        TransactionFilter::OrderFill => {
            assert(screaming_snake("OrderFill"@) =~= "ORDER_FILL"@) by {
                reveal_with_fuel(screaming_snake_prefix, 10);
                reveal_strlit("OrderFill");
                reveal_strlit("ORDER_FILL");
            }
        },
        _ => {},
    }
}

/// The wire names of some of the filters are their variant names in
/// SCREAMING_SNAKE_CASE.
#[verifier::rlimit(100)]
proof fn filter_wire_names_11(f: TransactionFilter)
    requires
        f is OrderCancel || f is OrderCancelReject || f is OrderClientExtensionsModify,
    ensures
        f.wire_name() == screaming_snake(f.variant_name()),
{
    match f {
        TransactionFilter::OrderCancel => {
            assert(screaming_snake("OrderCancel"@) =~= "ORDER_CANCEL"@) by {
                reveal_with_fuel(screaming_snake_prefix, 12);
                reveal_strlit("OrderCancel");
                reveal_strlit("ORDER_CANCEL");
            }
        },
        TransactionFilter::OrderCancelReject => {
            assert(screaming_snake("OrderCancelReject"@) =~= "ORDER_CANCEL_REJECT"@) by {
                reveal_with_fuel(screaming_snake_prefix, 18);
                reveal_strlit("OrderCancelReject");
                reveal_strlit("ORDER_CANCEL_REJECT");
            }
        },
        TransactionFilter::OrderClientExtensionsModify => {
            assert(screaming_snake("OrderClientExtensionsModify"@) =~= "ORDER_CLIENT_EXTENSIONS_MODIFY"@) by {
                reveal_with_fuel(screaming_snake_prefix, 28);
                reveal_strlit("OrderClientExtensionsModify");
                reveal_strlit("ORDER_CLIENT_EXTENSIONS_MODIFY");
            }
        },
        _ => {},
    }
}

/// The wire names of some of the filters are their variant names in
/// SCREAMING_SNAKE_CASE.
#[verifier::rlimit(100)]
proof fn filter_wire_names_12(f: TransactionFilter)
    requires
        f is OrderClientExtensionsModifyReject || f is TradeClientExtensionsModify || f is TradeClientExtensionsModifyReject,
    ensures
        f.wire_name() == screaming_snake(f.variant_name()),
{
    match f {
        TransactionFilter::OrderClientExtensionsModifyReject => {
            assert(screaming_snake("OrderClientExtensionsModifyReject"@) =~= "ORDER_CLIENT_EXTENSIONS_MODIFY_REJECT"@) by {
                reveal_with_fuel(screaming_snake_prefix, 34);
                reveal_strlit("OrderClientExtensionsModifyReject");
                reveal_strlit("ORDER_CLIENT_EXTENSIONS_MODIFY_REJECT");
            }
        },
        TransactionFilter::TradeClientExtensionsModify => {
            assert(screaming_snake("TradeClientExtensionsModify"@) =~= "TRADE_CLIENT_EXTENSIONS_MODIFY"@) by {
                reveal_with_fuel(screaming_snake_prefix, 28);
                reveal_strlit("TradeClientExtensionsModify");
                reveal_strlit("TRADE_CLIENT_EXTENSIONS_MODIFY");
            }
        },
        TransactionFilter::TradeClientExtensionsModifyReject => {
            assert(screaming_snake("TradeClientExtensionsModifyReject"@) =~= "TRADE_CLIENT_EXTENSIONS_MODIFY_REJECT"@) by {
                reveal_with_fuel(screaming_snake_prefix, 34);
                reveal_strlit("TradeClientExtensionsModifyReject");
                reveal_strlit("TRADE_CLIENT_EXTENSIONS_MODIFY_REJECT");
            }
        },
        _ => {},
    }
}

/// The wire names of some of the filters are their variant names in
/// SCREAMING_SNAKE_CASE.
#[verifier::rlimit(100)]
proof fn filter_wire_names_13(f: TransactionFilter)
    requires
        f is MarginCallEnter || f is MarginCallExtend || f is MarginCallExit,
    ensures
        f.wire_name() == screaming_snake(f.variant_name()),
{
    match f {
        TransactionFilter::MarginCallEnter => {
            assert(screaming_snake("MarginCallEnter"@) =~= "MARGIN_CALL_ENTER"@) by {
                reveal_with_fuel(screaming_snake_prefix, 16);
                reveal_strlit("MarginCallEnter");
                reveal_strlit("MARGIN_CALL_ENTER");
            }
        },
        TransactionFilter::MarginCallExtend => {
            assert(screaming_snake("MarginCallExtend"@) =~= "MARGIN_CALL_EXTEND"@) by {
                reveal_with_fuel(screaming_snake_prefix, 17);
                reveal_strlit("MarginCallExtend");
                reveal_strlit("MARGIN_CALL_EXTEND");
            }
        },
        TransactionFilter::MarginCallExit => {
            assert(screaming_snake("MarginCallExit"@) =~= "MARGIN_CALL_EXIT"@) by {
                reveal_with_fuel(screaming_snake_prefix, 15);
                reveal_strlit("MarginCallExit");
                reveal_strlit("MARGIN_CALL_EXIT");
            }
        },
        _ => {},
    }
}

/// The wire names of some of the filters are their variant names in
/// SCREAMING_SNAKE_CASE.
#[verifier::rlimit(100)]
proof fn filter_wire_names_14(f: TransactionFilter)
    requires
        f is DelayedTradeClosure || f is DailyFinancing || f is ResetResettablePL,
    ensures
        f.wire_name() == screaming_snake(f.variant_name()),
{
    match f {
        TransactionFilter::DelayedTradeClosure => {
            assert(screaming_snake("DelayedTradeClosure"@) =~= "DELAYED_TRADE_CLOSURE"@) by {
                reveal_with_fuel(screaming_snake_prefix, 20);
                reveal_strlit("DelayedTradeClosure");
                reveal_strlit("DELAYED_TRADE_CLOSURE");
            }
        },
        TransactionFilter::DailyFinancing => {
            assert(screaming_snake("DailyFinancing"@) =~= "DAILY_FINANCING"@) by {
                reveal_with_fuel(screaming_snake_prefix, 15);
                reveal_strlit("DailyFinancing");
                reveal_strlit("DAILY_FINANCING");
            }
        },
        TransactionFilter::ResetResettablePL => {
            assert(screaming_snake("ResetResettablePL"@) =~= "RESET_RESETTABLE_PL"@) by {
                reveal_with_fuel(screaming_snake_prefix, 18);
                reveal_strlit("ResetResettablePL");
                reveal_strlit("RESET_RESETTABLE_PL");
            }
        },
        _ => {},
    }
}

} // verus!
