//! Orders: the order model, order requests and their builders, and the
//! responses of the order endpoints.
pub mod model;
pub mod request;
pub mod response;
pub mod service;

pub use model::{
    CancellableOrderType, DynamicOrderState, FixedPriceOrder, GuaranteedStopLossOrder, LimitOrder,
    MarketIfTouchedOrder, MarketOrder, Order, OrderIdentifier, OrderPositionFill, OrderSpecifier,
    OrderState, OrderStateFilter, OrderTriggerCondition, OrderType, StopLossOrder, StopOrder,
    TakeProfitOrder, TimeInForce, TrailingStopLossOrder,
};
pub use request::{
    CreateOrderRequest, GuaranteedStopLossOrderRequest, LimitOrderRequest, ListOrdersRequest,
    MarketIfTouchedOrderRequest, MarketOrderRequest, OrderRequest, StopLossOrderRequest,
    StopOrderRequest, TakeProfitOrderRequest, TrailingStopLossOrderRequest,
    UpdateOrderClientExtensionsRequest,
};
pub use response::{
    CancelOrderResponse, CreateOrderResponse, GetOrderDetailsResponse, ListOrdersResponse,
    OrderCancelErrorResponse, OrderCreateErrorResponse, ReplaceOrderResponse,
    UpdateOrderClientExtensionsErrorResponse, UpdateOrderClientExtensionsResponse,
};
pub use service::OrderService;
