//! Order requests and their builders.
use crate::instrument::InstrumentName;
use crate::order::model::{OrderPositionFill, OrderStateFilter, OrderTriggerCondition, TimeInForce};
use crate::pricing::PriceValue;
use crate::primitives::{DecimalNumber, Timestamp};
use crate::transaction::details::{
    ClientExtensions, GuaranteedStopLossDetails, StopLossDetails, TakeProfitDetails,
    TrailingStopLossDetails,
};
use crate::text::{decimal, decimal_string, join, join_with, views};
use crate::transaction::types::{ClientID, OrderID, TradeID};
use crate::url::{
    lemma_pairs_under_concat, lemma_pairs_under_optional, optional_pair, pairs_under, Url,
};
use vstd::prelude::*;

verus! {

/// A polymorphic order creation request.
///
/// Wrap a concrete `*OrderRequest` struct in the appropriate variant and pass
/// it to [`OrderService::create`] or [`OrderService::replace`]. The `"type"`
/// field is written automatically by serde.
#[derive(Debug)]
pub enum OrderRequest {
    Market(MarketOrderRequest),
    Limit(LimitOrderRequest),
    Stop(StopOrderRequest),
    MarketIfTouched(MarketIfTouchedOrderRequest),
    TakeProfit(TakeProfitOrderRequest),
    StopLoss(StopLossOrderRequest),
    GuaranteedStopLoss(GuaranteedStopLossOrderRequest),
    TrailingStopLoss(TrailingStopLossOrderRequest),
}

/// Request body for creating a market order.
///
/// Build with [`MarketOrderRequest::new`] then pass to [`OrderService::create`]
/// wrapped in [`OrderRequest::Market`].
///
/// Defaults: `time_in_force = FOK`, `position_fill = Default`.
#[derive(Debug)]
pub struct MarketOrderRequest {
    /// The instrument to trade.
    pub instrument: InstrumentName,
    /// Units to trade. Positive = buy (long), negative = sell (short).
    pub units: DecimalNumber,
    /// Time-in-force (`FOK` or `IOC` for market orders).
    pub time_in_force: TimeInForce,
    /// Worst acceptable fill price. Omitted if `None`.
    pub price_bound: Option<PriceValue>,
    /// How the order interacts with an existing position.
    pub position_fill: OrderPositionFill,
    /// Client metadata to attach to the order. Omitted if `None`.
    pub client_extensions: Option<ClientExtensions>,
    /// Take-profit to attach to any resulting trade. Omitted if `None`.
    pub take_profit_on_fill: Option<TakeProfitDetails>,
    /// Stop-loss to attach to any resulting trade. Omitted if `None`.
    pub stop_loss_on_fill: Option<StopLossDetails>,
    /// Guaranteed stop-loss to attach to any resulting trade. Omitted if `None`.
    pub guaranteed_stop_loss_on_fill: Option<GuaranteedStopLossDetails>,
    /// Trailing stop-loss to attach to any resulting trade. Omitted if `None`.
    pub trailing_stop_loss_on_fill: Option<TrailingStopLossDetails>,
    /// Client extensions to apply to the resulting trade. Omitted if `None`.
    pub trade_client_extensions: Option<ClientExtensions>,
}

/// Request body for creating a limit order.
///
/// Build with [`LimitOrderRequest::new`] then pass to [`OrderService::create`]
/// wrapped in [`OrderRequest::Limit`].
///
/// Defaults: `time_in_force = GTC`, `position_fill = Default`,
/// `trigger_condition = Default`.
#[derive(Debug)]
pub struct LimitOrderRequest {
    /// The instrument to trade.
    pub instrument: InstrumentName,
    /// Units to trade. Positive = buy (long), negative = sell (short).
    pub units: DecimalNumber,
    /// The limit price. The order fills only at this price or better.
    pub price: PriceValue,
    /// How long the order remains active.
    pub time_in_force: TimeInForce,
    /// Expiry timestamp used when `time_in_force` is changed to `GTD` via [`Self::gtd`].
    pub gtd_time: Option<Timestamp>,
    /// How the order interacts with an existing position.
    pub position_fill: OrderPositionFill,
    /// Which price stream triggers the order.
    pub trigger_condition: OrderTriggerCondition,
    /// Client metadata to attach to the order. Omitted if `None`.
    pub client_extensions: Option<ClientExtensions>,
    /// Take-profit to attach to any resulting trade. Omitted if `None`.
    pub take_profit_on_fill: Option<TakeProfitDetails>,
    /// Stop-loss to attach to any resulting trade. Omitted if `None`.
    pub stop_loss_on_fill: Option<StopLossDetails>,
    /// Guaranteed stop-loss to attach to any resulting trade. Omitted if `None`.
    pub guaranteed_stop_loss_on_fill: Option<GuaranteedStopLossDetails>,
    /// Trailing stop-loss to attach to any resulting trade. Omitted if `None`.
    pub trailing_stop_loss_on_fill: Option<TrailingStopLossDetails>,
    /// Client extensions to apply to the resulting trade. Omitted if `None`.
    pub trade_client_extensions: Option<ClientExtensions>,
}

/// Request body for creating a stop order.
///
/// Build with [`StopOrderRequest::new`] then pass to [`OrderService::create`]
/// wrapped in [`OrderRequest::Stop`].
///
/// Defaults: `time_in_force = GTC`, `position_fill = Default`,
/// `trigger_condition = Default`.
#[derive(Debug)]
pub struct StopOrderRequest {
    /// The instrument to trade.
    pub instrument: InstrumentName,
    /// Units to trade. Positive = buy (long), negative = sell (short).
    pub units: DecimalNumber,
    /// The stop trigger price.
    pub price: PriceValue,
    /// Worst acceptable fill price after the stop triggers. Omitted if `None`.
    pub price_bound: Option<PriceValue>,
    /// How long the order remains active.
    pub time_in_force: TimeInForce,
    /// Expiry timestamp used when `time_in_force` is `GTD`.
    pub gtd_time: Option<Timestamp>,
    /// How the order interacts with an existing position.
    pub position_fill: OrderPositionFill,
    /// Which price stream triggers the order.
    pub trigger_condition: OrderTriggerCondition,
    /// Client metadata to attach to the order. Omitted if `None`.
    pub client_extensions: Option<ClientExtensions>,
    /// Take-profit to attach to any resulting trade. Omitted if `None`.
    pub take_profit_on_fill: Option<TakeProfitDetails>,
    /// Stop-loss to attach to any resulting trade. Omitted if `None`.
    pub stop_loss_on_fill: Option<StopLossDetails>,
    /// Guaranteed stop-loss to attach to any resulting trade. Omitted if `None`.
    pub guaranteed_stop_loss_on_fill: Option<GuaranteedStopLossDetails>,
    /// Trailing stop-loss to attach to any resulting trade. Omitted if `None`.
    pub trailing_stop_loss_on_fill: Option<TrailingStopLossDetails>,
    /// Client extensions to apply to the resulting trade. Omitted if `None`.
    pub trade_client_extensions: Option<ClientExtensions>,
}

/// Request body for creating a market-if-touched order.
///
/// Build with [`MarketIfTouchedOrderRequest::new`] then pass to
/// [`OrderService::create`] wrapped in [`OrderRequest::MarketIfTouched`].
///
/// Defaults: `time_in_force = GTC`, `position_fill = Default`,
/// `trigger_condition = Default`.
#[derive(Debug)]
pub struct MarketIfTouchedOrderRequest {
    /// The instrument to trade.
    pub instrument: InstrumentName,
    /// Units to trade. Positive = buy (long), negative = sell (short).
    pub units: DecimalNumber,
    /// The trigger price. When touched, the order converts to a market order.
    pub price: PriceValue,
    /// Worst acceptable fill price after triggering. Omitted if `None`.
    pub price_bound: Option<PriceValue>,
    /// How long the order remains active.
    pub time_in_force: TimeInForce,
    /// Expiry timestamp used when `time_in_force` is `GTD`.
    pub gtd_time: Option<Timestamp>,
    /// How the order interacts with an existing position.
    pub position_fill: OrderPositionFill,
    /// Which price stream triggers the order.
    pub trigger_condition: OrderTriggerCondition,
    /// Client metadata to attach to the order. Omitted if `None`.
    pub client_extensions: Option<ClientExtensions>,
    /// Take-profit to attach to any resulting trade. Omitted if `None`.
    pub take_profit_on_fill: Option<TakeProfitDetails>,
    /// Stop-loss to attach to any resulting trade. Omitted if `None`.
    pub stop_loss_on_fill: Option<StopLossDetails>,
    /// Guaranteed stop-loss to attach to any resulting trade. Omitted if `None`.
    pub guaranteed_stop_loss_on_fill: Option<GuaranteedStopLossDetails>,
    /// Trailing stop-loss to attach to any resulting trade. Omitted if `None`.
    pub trailing_stop_loss_on_fill: Option<TrailingStopLossDetails>,
    /// Client extensions to apply to the resulting trade. Omitted if `None`.
    pub trade_client_extensions: Option<ClientExtensions>,
}

/// Request body for creating a take-profit order on an existing trade.
///
/// Build with [`TakeProfitOrderRequest::new`] then pass to
/// [`OrderService::create`] wrapped in [`OrderRequest::TakeProfit`].
///
/// Defaults: `time_in_force = GTC`, `trigger_condition = Default`.
#[derive(Debug)]
pub struct TakeProfitOrderRequest {
    /// The ID of the trade to attach the take-profit to.
    pub trade_id: TradeID,
    /// Client-provided trade ID, if any. Omitted if `None`.
    pub client_trade_id: Option<ClientID>,
    /// The price at which the trade will be closed to take profit.
    pub price: PriceValue,
    /// How long the order remains active.
    pub time_in_force: TimeInForce,
    /// Expiry timestamp used when `time_in_force` is `GTD`.
    pub gtd_time: Option<Timestamp>,
    /// Which price stream triggers the order.
    pub trigger_condition: OrderTriggerCondition,
    /// Client metadata to attach to the order. Omitted if `None`.
    pub client_extensions: Option<ClientExtensions>,
}

/// Request body for creating a stop-loss order on an existing trade.
///
/// Build with [`StopLossOrderRequest::new`] then pass to
/// [`OrderService::create`] wrapped in [`OrderRequest::StopLoss`].
///
/// Defaults: `time_in_force = GTC`, `trigger_condition = Default`.
#[derive(Debug)]
pub struct StopLossOrderRequest {
    /// The ID of the trade to attach the stop-loss to.
    pub trade_id: TradeID,
    /// Client-provided trade ID, if any. Omitted if `None`.
    pub client_trade_id: Option<ClientID>,
    /// Absolute stop price. Mutually exclusive with `distance`.
    pub price: PriceValue,
    /// Distance from current price for the stop. Mutually exclusive with `price`.
    /// Omitted if `None`.
    pub distance: Option<DecimalNumber>,
    /// Whether to request guaranteed execution at the stop price. Omitted if `None`.
    pub guaranteed: Option<bool>,
    /// How long the order remains active.
    pub time_in_force: TimeInForce,
    /// Expiry timestamp used when `time_in_force` is `GTD`.
    pub gtd_time: Option<Timestamp>,
    /// Which price stream triggers the order.
    pub trigger_condition: OrderTriggerCondition,
    /// Client metadata to attach to the order. Omitted if `None`.
    pub client_extensions: Option<ClientExtensions>,
}

/// Request body for creating a guaranteed stop-loss order on an existing trade.
///
/// Build with [`GuaranteedStopLossOrderRequest::new`] then pass to
/// [`OrderService::create`] wrapped in [`OrderRequest::GuaranteedStopLoss`].
///
/// Defaults: `time_in_force = GTC`, `trigger_condition = Default`.
#[derive(Debug)]
pub struct GuaranteedStopLossOrderRequest {
    /// The ID of the trade to attach the guaranteed stop-loss to.
    pub trade_id: TradeID,
    /// Client-provided trade ID, if any. Omitted if `None`.
    pub client_trade_id: Option<ClientID>,
    /// The guaranteed stop price.
    pub price: PriceValue,
    /// Distance from current price; converted to an absolute price by the server.
    /// Omitted if `None`.
    pub distance: Option<DecimalNumber>,
    /// How long the order remains active.
    pub time_in_force: TimeInForce,
    /// Expiry timestamp used when `time_in_force` is `GTD`.
    pub gtd_time: Option<Timestamp>,
    /// Which price stream triggers the order.
    pub trigger_condition: OrderTriggerCondition,
    /// Client metadata to attach to the order. Omitted if `None`.
    pub client_extensions: Option<ClientExtensions>,
}

/// Request body for creating a trailing stop-loss order on an existing trade.
///
/// Build with [`TrailingStopLossOrderRequest::new`] then pass to
/// [`OrderService::create`] wrapped in [`OrderRequest::TrailingStopLoss`].
///
/// Defaults: `time_in_force = GTC`, `trigger_condition = Default`.
#[derive(Debug)]
pub struct TrailingStopLossOrderRequest {
    /// The ID of the trade to attach the trailing stop-loss to.
    pub trade_id: TradeID,
    /// Client-provided trade ID, if any. Omitted if `None`.
    pub client_trade_id: Option<ClientID>,
    /// The trailing distance kept between market price and the stop.
    pub distance: DecimalNumber,
    /// How long the order remains active.
    pub time_in_force: TimeInForce,
    /// Expiry timestamp used when `time_in_force` is `GTD`.
    pub gtd_time: Option<Timestamp>,
    /// Which price stream triggers the order.
    pub trigger_condition: OrderTriggerCondition,
    /// Client metadata to attach to the order. Omitted if `None`.
    pub client_extensions: Option<ClientExtensions>,
}

/// Builder for a `GET /v3/accounts/{accountID}/orders` request.
///
/// Construct via [`ListOrdersRequest::new`], configure with the builder
/// methods, then pass to [`OrderService::list`].
#[derive(Debug)]
pub struct ListOrdersRequest {
    /// Filter by specific order IDs.
    ids: Vec<OrderID>,
    /// Filter by order state.
    state: Option<OrderStateFilter>,
    /// Filter by instrument name.
    instrument: Option<InstrumentName>,
    /// Maximum number of orders to return.
    count: Option<u16>,
    /// Return only orders with IDs strictly less than this value (pagination).
    before_id: Option<OrderID>,
}

/// JSON request body sent to `POST /v3/accounts/{accountID}/orders`.
#[derive(Debug)]
pub struct CreateOrderRequest {
    /// The order to create.
    pub order: OrderRequest,
}

/// Request body for
/// `PUT /v3/accounts/{accountID}/orders/{orderSpecifier}/clientExtensions`.
///
/// At least one of `client_extensions` or `trade_client_extensions` must be set.
#[derive(Debug)]
pub struct UpdateOrderClientExtensionsRequest {
    /// New client extensions for the order itself. Omitted if `None`.
    pub client_extensions: Option<ClientExtensions>,
    /// New client extensions for the trade that would result from filling this
    /// order. Omitted if `None`.
    pub trade_client_extensions: Option<ClientExtensions>,
}


/// The filters of a [`ListOrdersRequest`].
pub struct ListOrdersQuery {
    /// The order IDs to return, in the order they were added.
    pub ids: Seq<Seq<char>>,
    /// The order state to return.
    pub state: Option<OrderStateFilter>,
    /// The instrument to return orders for.
    pub instrument: Option<Seq<char>>,
    /// The largest number of orders to return.
    pub count: Option<u16>,
    /// Return only orders with IDs below this one.
    pub before_id: Option<Seq<char>>,
}

impl View for ListOrdersRequest {
    type V = ListOrdersQuery;

    closed spec fn view(&self) -> ListOrdersQuery {
        ListOrdersQuery {
            ids: views(self.ids@),
            state: self.state,
            instrument: self.instrument.deep_view(),
            count: self.count,
            before_id: self.before_id.deep_view(),
        }
    }
}

/// The query pairs of a list-orders request, in the order OANDA's
/// parameters are written: `ids` (comma-separated, only when there are
/// some), `state`, `instrument`, `count`, `beforeID`, each only when set.
pub open spec fn list_orders_pairs(q: ListOrdersQuery) -> Seq<(Seq<char>, Seq<char>)> {
    optional_pair(
        "ids"@,
        if q.ids.len() > 0 {
            Some(join_with(q.ids, ","@))
        } else {
            None
        },
    ) + optional_pair(
        "state"@,
        match q.state {
            Some(s) => Some(s.wire_name()),
            None => None,
        },
    ) + optional_pair("instrument"@, q.instrument) + optional_pair(
        "count"@,
        match q.count {
            Some(c) => Some(decimal(c as nat)),
            None => None,
        },
    ) + optional_pair("beforeID"@, q.before_id)
}

/// Each parameter of a list-orders request is written on its own, whatever
/// the others are: exactly one `ids` pair, holding the IDs joined with
/// commas, when there are IDs, and none otherwise; likewise `state` (its
/// OANDA name), `instrument`, `count` (in decimal) and `beforeID` when set.
/// No other pair is written.
pub proof fn lemma_list_orders_fields_are_independent(q: ListOrdersQuery)
    ensures
        pairs_under(list_orders_pairs(q), "ids"@) == if q.ids.len() > 0 {
            seq![("ids"@, join_with(q.ids, ","@))]
        } else {
            Seq::<(Seq<char>, Seq<char>)>::empty()
        },
        pairs_under(list_orders_pairs(q), "state"@) == match q.state {
            Some(s) => seq![("state"@, s.wire_name())],
            None => Seq::<(Seq<char>, Seq<char>)>::empty(),
        },
        pairs_under(list_orders_pairs(q), "instrument"@) == match q.instrument {
            Some(i) => seq![("instrument"@, i)],
            None => Seq::<(Seq<char>, Seq<char>)>::empty(),
        },
        pairs_under(list_orders_pairs(q), "count"@) == match q.count {
            Some(c) => seq![("count"@, decimal(c as nat))],
            None => Seq::<(Seq<char>, Seq<char>)>::empty(),
        },
        pairs_under(list_orders_pairs(q), "beforeID"@) == match q.before_id {
            Some(b) => seq![("beforeID"@, b)],
            None => Seq::<(Seq<char>, Seq<char>)>::empty(),
        },
        list_orders_pairs(q).len() == (if q.ids.len() > 0 { 1int } else { 0int }) + (if q.state is Some {
            1int
        } else {
            0int
        }) + (if q.instrument is Some { 1int } else { 0int }) + (if q.count is Some {
            1int
        } else {
            0int
        }) + (if q.before_id is Some { 1int } else { 0int }),
{
    lemma_list_orders_keys_distinct();
    let ids_text = if q.ids.len() > 0 {
        Some(join_with(q.ids, ","@))
    } else {
        None
    };
    let state_text = match q.state {
        Some(s) => Some(s.wire_name()),
        None => None,
    };
    let count_text = match q.count {
        Some(c) => Some(decimal(c as nat)),
        None => None,
    };
    let a = optional_pair("ids"@, ids_text);
    let b = optional_pair("state"@, state_text);
    let c = optional_pair("instrument"@, q.instrument);
    let d = optional_pair("count"@, count_text);
    let e = optional_pair("beforeID"@, q.before_id);
    assert(list_orders_pairs(q) == a + b + c + d + e);
    lemma_pairs_under_concat(a, b);
    lemma_pairs_under_concat(a + b, c);
    lemma_pairs_under_concat(a + b + c, d);
    lemma_pairs_under_concat(a + b + c + d, e);
    lemma_pairs_under_optional("ids"@, ids_text);
    lemma_pairs_under_optional("state"@, state_text);
    lemma_pairs_under_optional("instrument"@, q.instrument);
    lemma_pairs_under_optional("count"@, count_text);
    lemma_pairs_under_optional("beforeID"@, q.before_id);
    let z = Seq::<(Seq<char>, Seq<char>)>::empty();
    assert(pairs_under(a + b + c + d + e, "ids"@) == a + z + z + z + z);
    assert(pairs_under(a + b + c + d + e, "state"@) == z + b + z + z + z);
    assert(pairs_under(a + b + c + d + e, "instrument"@) == z + z + c + z + z);
    assert(pairs_under(a + b + c + d + e, "count"@) == z + z + z + d + z);
    assert(pairs_under(a + b + c + d + e, "beforeID"@) == z + z + z + z + e);
}

/// The five keys of a list-orders query are different texts.
proof fn lemma_list_orders_keys_distinct()
    ensures
        "ids"@ != "state"@,
        "ids"@ != "instrument"@,
        "ids"@ != "count"@,
        "ids"@ != "beforeID"@,
        "state"@ != "instrument"@,
        "state"@ != "count"@,
        "state"@ != "beforeID"@,
        "instrument"@ != "count"@,
        "instrument"@ != "beforeID"@,
        "count"@ != "beforeID"@,
{
    reveal_strlit("ids");
    reveal_strlit("state");
    reveal_strlit("instrument");
    reveal_strlit("count");
    reveal_strlit("beforeID");
    assert("ids"@.len() == 3);
    assert("state"@.len() == 5);
    assert("instrument"@.len() == 10);
    assert("count"@.len() == 5);
    assert("beforeID"@.len() == 8);
    assert("state"@[0] != "count"@[0]);
}

impl ListOrdersRequest {
    /// Creates a new, unconfigured request (returns all orders by default).
    pub fn new() -> (r: Self)
        ensures
            r@.ids.len() == 0,
            r@.state is None,
            r@.instrument is None,
            r@.count is None,
            r@.before_id is None,
    {
        let r = ListOrdersRequest {
            ids: Vec::new(),
            state: None,
            instrument: None,
            count: None,
            before_id: None,
        };
        proof {
            assert(views(r.ids@) =~= Seq::<Seq<char>>::empty());
        }
        r
    }

    /// Adds a single order ID to the `ids` filter. Call multiple times to
    /// filter on several IDs.
    pub fn ids(self, id: OrderID) -> (r: Self)
        ensures
            r@ == (ListOrdersQuery { ids: self@.ids.push(id@), ..self@ }),
    {
        let mut r = self;
        let ghost before = r.ids@;
        r.ids.push(id);
        proof {
            assert(views(r.ids@) =~= views(before).push(id@));
        }
        r
    }

    /// Filters results to orders in the given `state`.
    pub fn state(self, state: OrderStateFilter) -> (r: Self)
        ensures
            r@ == (ListOrdersQuery { state: Some(state), ..self@ }),
    {
        let mut r = self;
        r.state = Some(state);
        r
    }

    /// Filters results to orders for the given `instrument`.
    pub fn instrument(self, instrument: InstrumentName) -> (r: Self)
        ensures
            r@ == (ListOrdersQuery { instrument: Some(instrument@), ..self@ }),
    {
        let mut r = self;
        r.instrument = Some(instrument);
        r
    }

    /// Sets the maximum number of orders returned (server-side limit applies).
    pub fn count(self, count: u16) -> (r: Self)
        ensures
            r@ == (ListOrdersQuery { count: Some(count), ..self@ }),
    {
        let mut r = self;
        r.count = Some(count);
        r
    }

    /// Returns only orders whose IDs are strictly less than `before_id`,
    /// enabling backward pagination through results.
    pub fn before_id(self, before_id: OrderID) -> (r: Self)
        ensures
            r@ == (ListOrdersQuery { before_id: Some(before_id@), ..self@ }),
    {
        let mut r = self;
        r.before_id = Some(before_id);
        r
    }

    /// Appends all configured query parameters to `url`.
    ///
    /// Called internally by [`OrderService::list`] before dispatching the
    /// HTTP request.
    pub fn set_params(&self, url: &mut Url)
        ensures
            final(url)@.base == old(url)@.base,
            final(url)@.segments == old(url)@.segments,
            final(url)@.pairs == old(url)@.pairs + list_orders_pairs(self@),
    {
        let ghost start = url@.pairs;
        let ids = if self.ids.len() > 0 {
            Some(join(&self.ids, ","))
        } else {
            None
        };
        url.append_optional_pair(
            "ids",
            match &ids {
                Some(s) => Some(s.as_str()),
                None => None,
            },
        );
        url.append_optional_pair(
            "state",
            match &self.state {
                Some(s) => Some(s.as_str()),
                None => None,
            },
        );
        url.append_optional_pair(
            "instrument",
            match &self.instrument {
                Some(s) => Some(s.as_str()),
                None => None,
            },
        );
        let count = match self.count {
            Some(c) => Some(decimal_string(c as u64)),
            None => None,
        };
        url.append_optional_pair(
            "count",
            match &count {
                Some(s) => Some(s.as_str()),
                None => None,
            },
        );
        url.append_optional_pair(
            "beforeID",
            match &self.before_id {
                Some(s) => Some(s.as_str()),
                None => None,
            },
        );
        proof {
            assert(url@.pairs =~= start + list_orders_pairs(self@));
        }
    }
}

impl Default for ListOrdersRequest {
    fn default() -> (r: Self)
        ensures
            r@.ids.len() == 0,
            r@.state is None,
            r@.instrument is None,
            r@.count is None,
            r@.before_id is None,
    {
        ListOrdersRequest::new()
    }
}

impl MarketOrderRequest {
    /// Creates a new market order request for `instrument` with the given `units`.
    ///
    /// Defaults: `time_in_force = FOK`, `position_fill = Default`.
    pub fn new(instrument: InstrumentName, units: DecimalNumber) -> (r: Self)
        ensures
            r == (MarketOrderRequest {
                instrument: instrument,
                units: units,
                time_in_force: TimeInForce::FOK,
                price_bound: None,
                position_fill: OrderPositionFill::Default,
                client_extensions: None,
                take_profit_on_fill: None,
                stop_loss_on_fill: None,
                guaranteed_stop_loss_on_fill: None,
                trailing_stop_loss_on_fill: None,
                trade_client_extensions: None,
            }),
    {
        MarketOrderRequest {
            instrument: instrument,
            units: units,
            time_in_force: TimeInForce::FOK,
            price_bound: None,
            position_fill: OrderPositionFill::Default,
            client_extensions: None,
            take_profit_on_fill: None,
            stop_loss_on_fill: None,
            guaranteed_stop_loss_on_fill: None,
            trailing_stop_loss_on_fill: None,
            trade_client_extensions: None,
        }
    }

    /// Sets `time_in_force` to `IOC` (immediate-or-cancel).
    pub fn ioc(self) -> (r: Self)
        ensures
            r == (MarketOrderRequest { time_in_force: TimeInForce::IOC, ..self }),
    {
        let mut r = self;
        r.time_in_force = TimeInForce::IOC;
        r
    }

    /// Sets how the order interacts with an existing position.
    pub fn position_fill(self, position_fill: OrderPositionFill) -> (r: Self)
        ensures
            r == (MarketOrderRequest { position_fill: position_fill, ..self }),
    {
        let mut r = self;
        r.position_fill = position_fill;
        r
    }

    /// Sets the worst acceptable fill price.
    pub fn price_bound(self, price_bound: PriceValue) -> (r: Self)
        ensures
            r == (MarketOrderRequest { price_bound: Some(price_bound), ..self }),
    {
        let mut r = self;
        r.price_bound = Some(price_bound);
        r
    }

    /// Attaches client metadata to the order.
    pub fn client_extensions(self, client_extensions: ClientExtensions) -> (r: Self)
        ensures
            r == (MarketOrderRequest { client_extensions: Some(client_extensions), ..self }),
    {
        let mut r = self;
        r.client_extensions = Some(client_extensions);
        r
    }

    /// Attaches a take-profit to the trade the order opens.
    pub fn take_profit_on_fill(self, take_profit_on_fill: TakeProfitDetails) -> (r: Self)
        ensures
            r == (MarketOrderRequest { take_profit_on_fill: Some(take_profit_on_fill), ..self }),
    {
        let mut r = self;
        r.take_profit_on_fill = Some(take_profit_on_fill);
        r
    }

    /// Attaches a stop-loss to the trade the order opens.
    pub fn stop_loss_on_fill(self, stop_loss_on_fill: StopLossDetails) -> (r: Self)
        ensures
            r == (MarketOrderRequest { stop_loss_on_fill: Some(stop_loss_on_fill), ..self }),
    {
        let mut r = self;
        r.stop_loss_on_fill = Some(stop_loss_on_fill);
        r
    }

    /// Attaches a guaranteed stop-loss to the trade the order opens.
    pub fn guaranteed_stop_loss_on_fill(
        self,
        guaranteed_stop_loss_on_fill: GuaranteedStopLossDetails,
    ) -> (r: Self)
        ensures
            r == (MarketOrderRequest {
                guaranteed_stop_loss_on_fill: Some(guaranteed_stop_loss_on_fill),
                ..self
            }),
    {
        let mut r = self;
        r.guaranteed_stop_loss_on_fill = Some(guaranteed_stop_loss_on_fill);
        r
    }

    /// Attaches a trailing stop-loss to the trade the order opens.
    pub fn trailing_stop_loss_on_fill(
        self,
        trailing_stop_loss_on_fill: TrailingStopLossDetails,
    ) -> (r: Self)
        ensures
            r == (MarketOrderRequest {
                trailing_stop_loss_on_fill: Some(trailing_stop_loss_on_fill),
                ..self
            }),
    {
        let mut r = self;
        r.trailing_stop_loss_on_fill = Some(trailing_stop_loss_on_fill);
        r
    }

    /// Sets the client extensions of the trade the order opens.
    pub fn trade_client_extensions(self, trade_client_extensions: ClientExtensions) -> (r: Self)
        ensures
            r == (MarketOrderRequest {
                trade_client_extensions: Some(trade_client_extensions),
                ..self
            }),
    {
        let mut r = self;
        r.trade_client_extensions = Some(trade_client_extensions);
        r
    }
}

impl LimitOrderRequest {
    /// Creates a new limit order request.
    ///
    /// Defaults: `time_in_force = GTC`, `position_fill = Default`, `trigger_condition = Default`.
    pub fn new(instrument: InstrumentName, units: DecimalNumber, price: PriceValue) -> (r: Self)
        ensures
            r == (LimitOrderRequest {
                instrument: instrument,
                units: units,
                price: price,
                time_in_force: TimeInForce::GTC,
                gtd_time: None,
                position_fill: OrderPositionFill::Default,
                trigger_condition: OrderTriggerCondition::Default,
                client_extensions: None,
                take_profit_on_fill: None,
                stop_loss_on_fill: None,
                guaranteed_stop_loss_on_fill: None,
                trailing_stop_loss_on_fill: None,
                trade_client_extensions: None,
            }),
    {
        LimitOrderRequest {
            instrument: instrument,
            units: units,
            price: price,
            time_in_force: TimeInForce::GTC,
            gtd_time: None,
            position_fill: OrderPositionFill::Default,
            trigger_condition: OrderTriggerCondition::Default,
            client_extensions: None,
            take_profit_on_fill: None,
            stop_loss_on_fill: None,
            guaranteed_stop_loss_on_fill: None,
            trailing_stop_loss_on_fill: None,
            trade_client_extensions: None,
        }
    }

    /// Sets `time_in_force` to `GTD` and records the expiry timestamp.
    pub fn gtd(self, gtd_time: Timestamp) -> (r: Self)
        ensures
            r == (LimitOrderRequest {
                time_in_force: TimeInForce::GTD,
                gtd_time: Some(gtd_time),
                ..self
            }),
    {
        let mut r = self;
        r.time_in_force = TimeInForce::GTD;
        r.gtd_time = Some(gtd_time);
        r
    }

    /// Sets `time_in_force` to `GFD` (good-for-day).
    pub fn gfd(self) -> (r: Self)
        ensures
            r == (LimitOrderRequest { time_in_force: TimeInForce::GFD, ..self }),
    {
        let mut r = self;
        r.time_in_force = TimeInForce::GFD;
        r
    }

    /// Sets how the order interacts with an existing position.
    pub fn position_fill(self, position_fill: OrderPositionFill) -> (r: Self)
        ensures
            r == (LimitOrderRequest { position_fill: position_fill, ..self }),
    {
        let mut r = self;
        r.position_fill = position_fill;
        r
    }

    /// Sets which price triggers the order.
    pub fn trigger_condition(self, trigger_condition: OrderTriggerCondition) -> (r: Self)
        ensures
            r == (LimitOrderRequest { trigger_condition: trigger_condition, ..self }),
    {
        let mut r = self;
        r.trigger_condition = trigger_condition;
        r
    }

    /// Attaches client metadata to the order.
    pub fn client_extensions(self, client_extensions: ClientExtensions) -> (r: Self)
        ensures
            r == (LimitOrderRequest { client_extensions: Some(client_extensions), ..self }),
    {
        let mut r = self;
        r.client_extensions = Some(client_extensions);
        r
    }

    /// Attaches a take-profit to the trade the order opens.
    pub fn take_profit_on_fill(self, take_profit_on_fill: TakeProfitDetails) -> (r: Self)
        ensures
            r == (LimitOrderRequest { take_profit_on_fill: Some(take_profit_on_fill), ..self }),
    {
        let mut r = self;
        r.take_profit_on_fill = Some(take_profit_on_fill);
        r
    }

    /// Attaches a stop-loss to the trade the order opens.
    pub fn stop_loss_on_fill(self, stop_loss_on_fill: StopLossDetails) -> (r: Self)
        ensures
            r == (LimitOrderRequest { stop_loss_on_fill: Some(stop_loss_on_fill), ..self }),
    {
        let mut r = self;
        r.stop_loss_on_fill = Some(stop_loss_on_fill);
        r
    }

    /// Attaches a guaranteed stop-loss to the trade the order opens.
    pub fn guaranteed_stop_loss_on_fill(
        self,
        guaranteed_stop_loss_on_fill: GuaranteedStopLossDetails,
    ) -> (r: Self)
        ensures
            r == (LimitOrderRequest {
                guaranteed_stop_loss_on_fill: Some(guaranteed_stop_loss_on_fill),
                ..self
            }),
    {
        let mut r = self;
        r.guaranteed_stop_loss_on_fill = Some(guaranteed_stop_loss_on_fill);
        r
    }

    /// Attaches a trailing stop-loss to the trade the order opens.
    pub fn trailing_stop_loss_on_fill(
        self,
        trailing_stop_loss_on_fill: TrailingStopLossDetails,
    ) -> (r: Self)
        ensures
            r == (LimitOrderRequest {
                trailing_stop_loss_on_fill: Some(trailing_stop_loss_on_fill),
                ..self
            }),
    {
        let mut r = self;
        r.trailing_stop_loss_on_fill = Some(trailing_stop_loss_on_fill);
        r
    }

    /// Sets the client extensions of the trade the order opens.
    pub fn trade_client_extensions(self, trade_client_extensions: ClientExtensions) -> (r: Self)
        ensures
            r == (LimitOrderRequest {
                trade_client_extensions: Some(trade_client_extensions),
                ..self
            }),
    {
        let mut r = self;
        r.trade_client_extensions = Some(trade_client_extensions);
        r
    }
}

impl StopOrderRequest {
    /// Creates a new stop order request.
    ///
    /// Defaults: `time_in_force = GTC`, `position_fill = Default`, `trigger_condition = Default`.
    pub fn new(instrument: InstrumentName, units: DecimalNumber, price: PriceValue) -> (r: Self)
        ensures
            r == (StopOrderRequest {
                instrument: instrument,
                units: units,
                price: price,
                price_bound: None,
                time_in_force: TimeInForce::GTC,
                gtd_time: None,
                position_fill: OrderPositionFill::Default,
                trigger_condition: OrderTriggerCondition::Default,
                client_extensions: None,
                take_profit_on_fill: None,
                stop_loss_on_fill: None,
                guaranteed_stop_loss_on_fill: None,
                trailing_stop_loss_on_fill: None,
                trade_client_extensions: None,
            }),
    {
        StopOrderRequest {
            instrument: instrument,
            units: units,
            price: price,
            price_bound: None,
            time_in_force: TimeInForce::GTC,
            gtd_time: None,
            position_fill: OrderPositionFill::Default,
            trigger_condition: OrderTriggerCondition::Default,
            client_extensions: None,
            take_profit_on_fill: None,
            stop_loss_on_fill: None,
            guaranteed_stop_loss_on_fill: None,
            trailing_stop_loss_on_fill: None,
            trade_client_extensions: None,
        }
    }

    /// Sets `time_in_force` to `GTD` and records the expiry timestamp.
    pub fn gtd(self, gtd_time: Timestamp) -> (r: Self)
        ensures
            r == (StopOrderRequest {
                time_in_force: TimeInForce::GTD,
                gtd_time: Some(gtd_time),
                ..self
            }),
    {
        let mut r = self;
        r.time_in_force = TimeInForce::GTD;
        r.gtd_time = Some(gtd_time);
        r
    }

    /// Sets `time_in_force` to `GFD` (good-for-day).
    pub fn gfd(self) -> (r: Self)
        ensures
            r == (StopOrderRequest { time_in_force: TimeInForce::GFD, ..self }),
    {
        let mut r = self;
        r.time_in_force = TimeInForce::GFD;
        r
    }

    /// Sets the worst acceptable fill price.
    pub fn price_bound(self, price_bound: PriceValue) -> (r: Self)
        ensures
            r == (StopOrderRequest { price_bound: Some(price_bound), ..self }),
    {
        let mut r = self;
        r.price_bound = Some(price_bound);
        r
    }

    /// Sets how the order interacts with an existing position.
    pub fn position_fill(self, position_fill: OrderPositionFill) -> (r: Self)
        ensures
            r == (StopOrderRequest { position_fill: position_fill, ..self }),
    {
        let mut r = self;
        r.position_fill = position_fill;
        r
    }

    /// Sets which price triggers the order.
    pub fn trigger_condition(self, trigger_condition: OrderTriggerCondition) -> (r: Self)
        ensures
            r == (StopOrderRequest { trigger_condition: trigger_condition, ..self }),
    {
        let mut r = self;
        r.trigger_condition = trigger_condition;
        r
    }

    /// Attaches client metadata to the order.
    pub fn client_extensions(self, client_extensions: ClientExtensions) -> (r: Self)
        ensures
            r == (StopOrderRequest { client_extensions: Some(client_extensions), ..self }),
    {
        let mut r = self;
        r.client_extensions = Some(client_extensions);
        r
    }

    /// Attaches a take-profit to the trade the order opens.
    pub fn take_profit_on_fill(self, take_profit_on_fill: TakeProfitDetails) -> (r: Self)
        ensures
            r == (StopOrderRequest { take_profit_on_fill: Some(take_profit_on_fill), ..self }),
    {
        let mut r = self;
        r.take_profit_on_fill = Some(take_profit_on_fill);
        r
    }

    /// Attaches a stop-loss to the trade the order opens.
    pub fn stop_loss_on_fill(self, stop_loss_on_fill: StopLossDetails) -> (r: Self)
        ensures
            r == (StopOrderRequest { stop_loss_on_fill: Some(stop_loss_on_fill), ..self }),
    {
        let mut r = self;
        r.stop_loss_on_fill = Some(stop_loss_on_fill);
        r
    }

    /// Attaches a guaranteed stop-loss to the trade the order opens.
    pub fn guaranteed_stop_loss_on_fill(
        self,
        guaranteed_stop_loss_on_fill: GuaranteedStopLossDetails,
    ) -> (r: Self)
        ensures
            r == (StopOrderRequest {
                guaranteed_stop_loss_on_fill: Some(guaranteed_stop_loss_on_fill),
                ..self
            }),
    {
        let mut r = self;
        r.guaranteed_stop_loss_on_fill = Some(guaranteed_stop_loss_on_fill);
        r
    }

    /// Attaches a trailing stop-loss to the trade the order opens.
    pub fn trailing_stop_loss_on_fill(
        self,
        trailing_stop_loss_on_fill: TrailingStopLossDetails,
    ) -> (r: Self)
        ensures
            r == (StopOrderRequest {
                trailing_stop_loss_on_fill: Some(trailing_stop_loss_on_fill),
                ..self
            }),
    {
        let mut r = self;
        r.trailing_stop_loss_on_fill = Some(trailing_stop_loss_on_fill);
        r
    }

    /// Sets the client extensions of the trade the order opens.
    pub fn trade_client_extensions(self, trade_client_extensions: ClientExtensions) -> (r: Self)
        ensures
            r == (StopOrderRequest {
                trade_client_extensions: Some(trade_client_extensions),
                ..self
            }),
    {
        let mut r = self;
        r.trade_client_extensions = Some(trade_client_extensions);
        r
    }
}

impl MarketIfTouchedOrderRequest {
    /// Creates a new market-if-touched order request.
    ///
    /// Defaults: `time_in_force = GTC`, `position_fill = Default`, `trigger_condition = Default`.
    pub fn new(instrument: InstrumentName, units: DecimalNumber, price: PriceValue) -> (r: Self)
        ensures
            r == (MarketIfTouchedOrderRequest {
                instrument: instrument,
                units: units,
                price: price,
                price_bound: None,
                time_in_force: TimeInForce::GTC,
                gtd_time: None,
                position_fill: OrderPositionFill::Default,
                trigger_condition: OrderTriggerCondition::Default,
                client_extensions: None,
                take_profit_on_fill: None,
                stop_loss_on_fill: None,
                guaranteed_stop_loss_on_fill: None,
                trailing_stop_loss_on_fill: None,
                trade_client_extensions: None,
            }),
    {
        MarketIfTouchedOrderRequest {
            instrument: instrument,
            units: units,
            price: price,
            price_bound: None,
            time_in_force: TimeInForce::GTC,
            gtd_time: None,
            position_fill: OrderPositionFill::Default,
            trigger_condition: OrderTriggerCondition::Default,
            client_extensions: None,
            take_profit_on_fill: None,
            stop_loss_on_fill: None,
            guaranteed_stop_loss_on_fill: None,
            trailing_stop_loss_on_fill: None,
            trade_client_extensions: None,
        }
    }

    /// Sets `time_in_force` to `GFD` (good-for-day).
    pub fn gfd(self) -> (r: Self)
        ensures
            r == (MarketIfTouchedOrderRequest { time_in_force: TimeInForce::GFD, ..self }),
    {
        let mut r = self;
        r.time_in_force = TimeInForce::GFD;
        r
    }

    /// Sets `time_in_force` to `GTD` and records the expiry timestamp.
    pub fn gtd(self, gtd_time: Timestamp) -> (r: Self)
        ensures
            r == (MarketIfTouchedOrderRequest {
                time_in_force: TimeInForce::GTD,
                gtd_time: Some(gtd_time),
                ..self
            }),
    {
        let mut r = self;
        r.time_in_force = TimeInForce::GTD;
        r.gtd_time = Some(gtd_time);
        r
    }

    /// Sets how the order interacts with an existing position.
    pub fn position_fill(self, position_fill: OrderPositionFill) -> (r: Self)
        ensures
            r == (MarketIfTouchedOrderRequest { position_fill: position_fill, ..self }),
    {
        let mut r = self;
        r.position_fill = position_fill;
        r
    }

    /// Sets which price triggers the order.
    pub fn trigger_condition(self, trigger_condition: OrderTriggerCondition) -> (r: Self)
        ensures
            r == (MarketIfTouchedOrderRequest { trigger_condition: trigger_condition, ..self }),
    {
        let mut r = self;
        r.trigger_condition = trigger_condition;
        r
    }

    /// Attaches client metadata to the order.
    pub fn client_extensions(self, client_extensions: ClientExtensions) -> (r: Self)
        ensures
            r == (MarketIfTouchedOrderRequest {
                client_extensions: Some(client_extensions),
                ..self
            }),
    {
        let mut r = self;
        r.client_extensions = Some(client_extensions);
        r
    }

    /// Attaches a take-profit to the trade the order opens.
    pub fn take_profit_on_fill(self, take_profit_on_fill: TakeProfitDetails) -> (r: Self)
        ensures
            r == (MarketIfTouchedOrderRequest {
                take_profit_on_fill: Some(take_profit_on_fill),
                ..self
            }),
    {
        let mut r = self;
        r.take_profit_on_fill = Some(take_profit_on_fill);
        r
    }

    /// Attaches a stop-loss to the trade the order opens.
    pub fn stop_loss_on_fill(self, stop_loss_on_fill: StopLossDetails) -> (r: Self)
        ensures
            r == (MarketIfTouchedOrderRequest {
                stop_loss_on_fill: Some(stop_loss_on_fill),
                ..self
            }),
    {
        let mut r = self;
        r.stop_loss_on_fill = Some(stop_loss_on_fill);
        r
    }

    /// Attaches a guaranteed stop-loss to the trade the order opens.
    pub fn guaranteed_stop_loss_on_fill(
        self,
        guaranteed_stop_loss_on_fill: GuaranteedStopLossDetails,
    ) -> (r: Self)
        ensures
            r == (MarketIfTouchedOrderRequest {
                guaranteed_stop_loss_on_fill: Some(guaranteed_stop_loss_on_fill),
                ..self
            }),
    {
        let mut r = self;
        r.guaranteed_stop_loss_on_fill = Some(guaranteed_stop_loss_on_fill);
        r
    }

    /// Attaches a trailing stop-loss to the trade the order opens.
    pub fn trailing_stop_loss_on_fill(
        self,
        trailing_stop_loss_on_fill: TrailingStopLossDetails,
    ) -> (r: Self)
        ensures
            r == (MarketIfTouchedOrderRequest {
                trailing_stop_loss_on_fill: Some(trailing_stop_loss_on_fill),
                ..self
            }),
    {
        let mut r = self;
        r.trailing_stop_loss_on_fill = Some(trailing_stop_loss_on_fill);
        r
    }

    /// Sets the client extensions of the trade the order opens.
    pub fn trade_client_extensions(self, trade_client_extensions: ClientExtensions) -> (r: Self)
        ensures
            r == (MarketIfTouchedOrderRequest {
                trade_client_extensions: Some(trade_client_extensions),
                ..self
            }),
    {
        let mut r = self;
        r.trade_client_extensions = Some(trade_client_extensions);
        r
    }
}

impl TakeProfitOrderRequest {
    /// Creates a new take-profit order request for `trade_id` at the given `price`.
    ///
    /// Defaults: `time_in_force = GTC`, `trigger_condition = Default`.
    pub fn new(trade_id: TradeID, price: PriceValue) -> (r: Self)
        ensures
            r == (TakeProfitOrderRequest {
                trade_id: trade_id,
                client_trade_id: None,
                price: price,
                time_in_force: TimeInForce::GTC,
                gtd_time: None,
                trigger_condition: OrderTriggerCondition::Default,
                client_extensions: None,
            }),
    {
        TakeProfitOrderRequest {
            trade_id: trade_id,
            client_trade_id: None,
            price: price,
            time_in_force: TimeInForce::GTC,
            gtd_time: None,
            trigger_condition: OrderTriggerCondition::Default,
            client_extensions: None,
        }
    }

    /// Sets `time_in_force` to `GFD` (good-for-day).
    pub fn gfd(self) -> (r: Self)
        ensures
            r == (TakeProfitOrderRequest { time_in_force: TimeInForce::GFD, ..self }),
    {
        let mut r = self;
        r.time_in_force = TimeInForce::GFD;
        r
    }

    /// Sets `time_in_force` to `GTD` and records the expiry timestamp.
    pub fn gtd(self, gtd_time: Timestamp) -> (r: Self)
        ensures
            r == (TakeProfitOrderRequest {
                time_in_force: TimeInForce::GTD,
                gtd_time: Some(gtd_time),
                ..self
            }),
    {
        let mut r = self;
        r.time_in_force = TimeInForce::GTD;
        r.gtd_time = Some(gtd_time);
        r
    }

    /// Sets which price triggers the order.
    pub fn trigger_condition(self, trigger_condition: OrderTriggerCondition) -> (r: Self)
        ensures
            r == (TakeProfitOrderRequest { trigger_condition: trigger_condition, ..self }),
    {
        let mut r = self;
        r.trigger_condition = trigger_condition;
        r
    }

    /// Attaches client metadata to the order.
    pub fn client_extensions(self, client_extensions: ClientExtensions) -> (r: Self)
        ensures
            r == (TakeProfitOrderRequest { client_extensions: Some(client_extensions), ..self }),
    {
        let mut r = self;
        r.client_extensions = Some(client_extensions);
        r
    }
}

impl StopLossOrderRequest {
    /// Creates a new stop-loss order request for `trade_id` at the given `price`.
    ///
    /// Defaults: `time_in_force = GTC`, `trigger_condition = Default`.
    pub fn new(trade_id: TradeID, price: PriceValue) -> (r: Self)
        ensures
            r == (StopLossOrderRequest {
                trade_id: trade_id,
                client_trade_id: None,
                price: price,
                distance: None,
                guaranteed: None,
                time_in_force: TimeInForce::GTC,
                gtd_time: None,
                trigger_condition: OrderTriggerCondition::Default,
                client_extensions: None,
            }),
    {
        StopLossOrderRequest {
            trade_id: trade_id,
            client_trade_id: None,
            price: price,
            distance: None,
            guaranteed: None,
            time_in_force: TimeInForce::GTC,
            gtd_time: None,
            trigger_condition: OrderTriggerCondition::Default,
            client_extensions: None,
        }
    }

    /// Sets `time_in_force` to `GFD` (good-for-day).
    pub fn gfd(self) -> (r: Self)
        ensures
            r == (StopLossOrderRequest { time_in_force: TimeInForce::GFD, ..self }),
    {
        let mut r = self;
        r.time_in_force = TimeInForce::GFD;
        r
    }

    /// Sets `time_in_force` to `GTD` and records the expiry timestamp.
    pub fn gtd(self, gtd_time: Timestamp) -> (r: Self)
        ensures
            r == (StopLossOrderRequest {
                time_in_force: TimeInForce::GTD,
                gtd_time: Some(gtd_time),
                ..self
            }),
    {
        let mut r = self;
        r.time_in_force = TimeInForce::GTD;
        r.gtd_time = Some(gtd_time);
        r
    }

    /// Identifies the trade by its client ID.
    pub fn client_trade_id(self, client_trade_id: ClientID) -> (r: Self)
        ensures
            r == (StopLossOrderRequest { client_trade_id: Some(client_trade_id), ..self }),
    {
        let mut r = self;
        r.client_trade_id = Some(client_trade_id);
        r
    }

    /// Sets the distance from the current price.
    pub fn distance(self, distance: PriceValue) -> (r: Self)
        ensures
            r == (StopLossOrderRequest { distance: Some(distance), ..self }),
    {
        let mut r = self;
        r.distance = Some(distance);
        r
    }

    /// Sets which price triggers the order.
    pub fn trigger_condition(self, trigger_condition: OrderTriggerCondition) -> (r: Self)
        ensures
            r == (StopLossOrderRequest { trigger_condition: trigger_condition, ..self }),
    {
        let mut r = self;
        r.trigger_condition = trigger_condition;
        r
    }

    /// Attaches client metadata to the order.
    pub fn client_extensions(self, client_extensions: ClientExtensions) -> (r: Self)
        ensures
            r == (StopLossOrderRequest { client_extensions: Some(client_extensions), ..self }),
    {
        let mut r = self;
        r.client_extensions = Some(client_extensions);
        r
    }
}

impl GuaranteedStopLossOrderRequest {
    /// Creates a new guaranteed stop-loss order request for `trade_id` at `price`.
    ///
    /// Defaults: `time_in_force = GTC`, `trigger_condition = Default`.
    pub fn new(trade_id: TradeID, price: PriceValue) -> (r: Self)
        ensures
            r == (GuaranteedStopLossOrderRequest {
                trade_id: trade_id,
                client_trade_id: None,
                price: price,
                distance: None,
                time_in_force: TimeInForce::GTC,
                gtd_time: None,
                trigger_condition: OrderTriggerCondition::Default,
                client_extensions: None,
            }),
    {
        GuaranteedStopLossOrderRequest {
            trade_id: trade_id,
            client_trade_id: None,
            price: price,
            distance: None,
            time_in_force: TimeInForce::GTC,
            gtd_time: None,
            trigger_condition: OrderTriggerCondition::Default,
            client_extensions: None,
        }
    }

    /// Sets `time_in_force` to `GFD` (good-for-day).
    pub fn gfd(self) -> (r: Self)
        ensures
            r == (GuaranteedStopLossOrderRequest { time_in_force: TimeInForce::GFD, ..self }),
    {
        let mut r = self;
        r.time_in_force = TimeInForce::GFD;
        r
    }

    /// Sets `time_in_force` to `GTD` and records the expiry timestamp.
    pub fn gtd(self, gtd_time: Timestamp) -> (r: Self)
        ensures
            r == (GuaranteedStopLossOrderRequest {
                time_in_force: TimeInForce::GTD,
                gtd_time: Some(gtd_time),
                ..self
            }),
    {
        let mut r = self;
        r.time_in_force = TimeInForce::GTD;
        r.gtd_time = Some(gtd_time);
        r
    }

    /// Identifies the trade by its client ID.
    pub fn client_trade_id(self, client_trade_id: ClientID) -> (r: Self)
        ensures
            r == (GuaranteedStopLossOrderRequest {
                client_trade_id: Some(client_trade_id),
                ..self
            }),
    {
        let mut r = self;
        r.client_trade_id = Some(client_trade_id);
        r
    }

    /// Sets the distance from the current price.
    pub fn distance(self, distance: PriceValue) -> (r: Self)
        ensures
            r == (GuaranteedStopLossOrderRequest { distance: Some(distance), ..self }),
    {
        let mut r = self;
        r.distance = Some(distance);
        r
    }

    /// Sets which price triggers the order.
    pub fn trigger_condition(self, trigger_condition: OrderTriggerCondition) -> (r: Self)
        ensures
            r == (GuaranteedStopLossOrderRequest { trigger_condition: trigger_condition, ..self }),
    {
        let mut r = self;
        r.trigger_condition = trigger_condition;
        r
    }

    /// Attaches client metadata to the order.
    pub fn client_extensions(self, client_extensions: ClientExtensions) -> (r: Self)
        ensures
            r == (GuaranteedStopLossOrderRequest {
                client_extensions: Some(client_extensions),
                ..self
            }),
    {
        let mut r = self;
        r.client_extensions = Some(client_extensions);
        r
    }
}

impl TrailingStopLossOrderRequest {
    /// Creates a new trailing stop-loss order request for `trade_id` with the given trailing `distance`.
    ///
    /// Defaults: `time_in_force = GTC`, `trigger_condition = Default`.
    pub fn new(trade_id: TradeID, distance: DecimalNumber) -> (r: Self)
        ensures
            r == (TrailingStopLossOrderRequest {
                trade_id: trade_id,
                client_trade_id: None,
                distance: distance,
                time_in_force: TimeInForce::GTC,
                gtd_time: None,
                trigger_condition: OrderTriggerCondition::Default,
                client_extensions: None,
            }),
    {
        TrailingStopLossOrderRequest {
            trade_id: trade_id,
            client_trade_id: None,
            distance: distance,
            time_in_force: TimeInForce::GTC,
            gtd_time: None,
            trigger_condition: OrderTriggerCondition::Default,
            client_extensions: None,
        }
    }

    /// Sets `time_in_force` to `GFD` (good-for-day).
    pub fn gfd(self) -> (r: Self)
        ensures
            r == (TrailingStopLossOrderRequest { time_in_force: TimeInForce::GFD, ..self }),
    {
        let mut r = self;
        r.time_in_force = TimeInForce::GFD;
        r
    }

    /// Sets `time_in_force` to `GTD` and records the expiry timestamp.
    pub fn gtd(self, gtd_time: Timestamp) -> (r: Self)
        ensures
            r == (TrailingStopLossOrderRequest {
                time_in_force: TimeInForce::GTD,
                gtd_time: Some(gtd_time),
                ..self
            }),
    {
        let mut r = self;
        r.time_in_force = TimeInForce::GTD;
        r.gtd_time = Some(gtd_time);
        r
    }

    /// Identifies the trade by its client ID.
    pub fn client_trade_id(self, client_trade_id: ClientID) -> (r: Self)
        ensures
            r == (TrailingStopLossOrderRequest { client_trade_id: Some(client_trade_id), ..self }),
    {
        let mut r = self;
        r.client_trade_id = Some(client_trade_id);
        r
    }

    /// Sets which price triggers the order.
    pub fn trigger_condition(self, trigger_condition: OrderTriggerCondition) -> (r: Self)
        ensures
            r == (TrailingStopLossOrderRequest { trigger_condition: trigger_condition, ..self }),
    {
        let mut r = self;
        r.trigger_condition = trigger_condition;
        r
    }

    /// Attaches client metadata to the order.
    pub fn client_extensions(self, client_extensions: ClientExtensions) -> (r: Self)
        ensures
            r == (TrailingStopLossOrderRequest {
                client_extensions: Some(client_extensions),
                ..self
            }),
    {
        let mut r = self;
        r.client_extensions = Some(client_extensions);
        r
    }
}

impl UpdateOrderClientExtensionsRequest {
    /// Creates a new request with no extensions set.
    pub fn new() -> (r: Self)
        ensures
            r == (UpdateOrderClientExtensionsRequest { client_extensions: None, trade_client_extensions: None }),
    {
        UpdateOrderClientExtensionsRequest { client_extensions: None, trade_client_extensions: None }
    }

    /// Attaches client metadata to the order.
    pub fn client_extensions(self, client_extensions: ClientExtensions) -> (r: Self)
        ensures
            r == (UpdateOrderClientExtensionsRequest {
                client_extensions: Some(client_extensions),
                ..self
            }),
    {
        let mut r = self;
        r.client_extensions = Some(client_extensions);
        r
    }

    /// Sets the client extensions of the trade the order opens.
    pub fn trade_client_extensions(self, trade_client_extensions: ClientExtensions) -> (r: Self)
        ensures
            r == (UpdateOrderClientExtensionsRequest {
                trade_client_extensions: Some(trade_client_extensions),
                ..self
            }),
    {
        let mut r = self;
        r.trade_client_extensions = Some(trade_client_extensions);
        r
    }
}

impl Default for UpdateOrderClientExtensionsRequest {
    fn default() -> (r: Self)
        ensures
            r == (UpdateOrderClientExtensionsRequest { client_extensions: None, trade_client_extensions: None }),
    {
        UpdateOrderClientExtensionsRequest::new()
    }
}

} // verus!
