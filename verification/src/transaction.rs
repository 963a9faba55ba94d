//! Transactions: identifiers, type and reason enums, every transaction an
//! account records, the transaction query builders and their responses.
pub mod details;
pub mod event;
pub mod request;
pub mod response;
pub mod service;
pub mod types;

pub use details::{
    ClientExtensions, GuaranteedStopLossDetails, MarketOrderDelayedTradeClose,
    MarketOrderMarginCloseout, MarketOrderMarginCloseoutReason, MarketOrderPositionCloseout,
    MarketOrderTradeClose, OpenTradeDividendAdjustment, OpenTradeFinancing, PositionFinancing,
    StopLossDetails, TakeProfitDetails, TradeOpen, TradeReduce, TrailingStopLossDetails,
    TransactionHeartbeat,
};
pub use event::{
    ClientConfigureRejectTransaction, ClientConfigureTransaction, CloseTransaction,
    CreateTransaction, DailyFinancingTransaction, DelayedTradeClosureTransaction,
    DividendAdjustmentTransaction, FixedPriceOrderTransaction,
    GuaranteedStopLossOrderRejectTransaction, GuaranteedStopLossOrderTransaction,
    LimitOrderRejectTransaction, LimitOrderTransaction, MarginCallEnterTransaction,
    MarginCallExitTransaction, MarginCallExtendTransaction,
    MarketIfTouchedOrderRejectTransaction, MarketIfTouchedOrderTransaction,
    MarketOrderRejectTransaction, MarketOrderTransaction, OrderCancelRejectTransaction,
    OrderCancelTransaction, OrderClientExtensionsModifyRejectTransaction,
    OrderClientExtensionsModifyTransaction, OrderCreateRejectTransaction, OrderCreateTransaction,
    OrderFillTransaction, ReopenTransaction, ResetResettablePLTransaction,
    StopLossOrderRejectTransaction, StopLossOrderTransaction, StopOrderRejectTransaction,
    StopOrderTransaction, TakeProfitOrderRejectTransaction, TakeProfitOrderTransaction,
    TradeClientExtensionsModifyRejectTransaction, TradeClientExtensionsModifyTransaction,
    TrailingStopLossOrderRejectTransaction, TrailingStopLossOrderTransaction, Transaction,
    TransactionStreamItem, TransferFundsRejectTransaction, TransferFundsTransaction,
};
pub use request::{
    GetTransactionsByIDRangeRequest, GetTransactionsBySinceIDRequest, ListTransactionsRequest,
};
pub use response::{
    GetTransactionDetailsResponse, GetTransactionsResponse, ListTransactionsResponse,
};
pub use service::TransactionService;
pub use types::{
    AccountFinancingMode, AccountUnits, ClientComment, ClientID, ClientTag, FixedPriceOrderReason,
    FundingReason, GuaranteedStopLossOrderReason, LimitOrderReason, MarketIfTouchedOrderReason,
    MarketOrderReason, OrderCancelReason, OrderFillReason, OrderID, RequestID, StopLossOrderReason,
    StopOrderReason, TakeProfitOrderReason, TradeID, TrailingStopLossOrderReason, TransactionFilter,
    TransactionID, TransactionRejectReason, TransactionType,
};
