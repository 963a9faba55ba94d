//! Tradeable instruments, candlestick data and the candlestick request builder.
use crate::pricing::{
    decimal_i64, lemma_liquidity_reads_its_text, PriceValue, PricingComponent,
};
use crate::primitives::{local_text_of, DecimalNumber, Tag, Timestamp};
use crate::endpoint::{endpoint_at, endpoint_matches, path1, path4, Endpoint, Method, RejectRule};
use crate::errors::APIError;
use crate::http::{
    account_url_outcome, api_url, api_url_outcome, invalid_request, invalid_request_message,
    Connection,
};
use crate::text::{bool_string, bool_text, decimal, decimal_string, str_eq, trim, trim_ws};
use crate::transaction::types::TransactionID;
use crate::url::{lemma_joined_pairs_contain, optional_pair, Url};
use vstd::prelude::*;

verus! {

/// An instrument identifier string in `"BASE_QUOTE"` format (e.g. `"EUR_USD"`).
pub type InstrumentName = String;

/// The asset class of a tradeable instrument.
#[derive(Debug, Clone, Copy, PartialEq, Eq, Structural)]
pub enum InstrumentType {
    /// A foreign-exchange currency pair.
    Currency,
    /// A contract for difference on an index, commodity, or other underlying.
    CFD,
    /// A precious metal spot instrument.
    Metal,
}

/// Commission structure applied to trades on a specific instrument.
#[derive(Debug)]
pub struct InstrumentCommission {
    /// Commission charged per `units_traded` units, expressed in home currency.
    pub commission: DecimalNumber,
    /// The number of units of the instrument to which `commission` applies.
    pub units_traded: DecimalNumber,
    /// The minimum commission charged per trade, regardless of size.
    pub min_commission: DecimalNumber,
}

/// Whether Guaranteed Stop Loss Orders (GSLOs) are available for a specific instrument.
#[derive(Debug, Clone, Copy, PartialEq, Eq, Structural)]
pub enum GuaranteedStopLossOrderModeForInstrument {
    /// GSLOs are not available for this instrument.
    Disabled,
    /// GSLOs are available but not required for this instrument.
    Allowed,
    /// Every trade on this instrument must have a GSLO attached.
    Required,
}

/// Restricts where a Guaranteed Stop Loss Order may be placed relative to the
/// current price, based on overall position volume.
#[derive(Debug)]
pub struct GuaranteedStopLossOrderLevelRestriction {
    /// Total position volume (in units) above which the price range restriction applies.
    pub volume: DecimalNumber,
    /// Minimum distance (in price units) from the current price that a GSLO must maintain
    /// when the position volume exceeds `volume`.
    pub price_range: DecimalNumber,
}

/// Day of the week, used when configuring financing schedules.
#[derive(Debug, Clone, Copy, PartialEq, Eq, Structural)]
pub enum DayOfWeek {
    Sunday,
    Monday,
    Tuesday,
    Wednesday,
    Thursday,
    Friday,
    Saturday,
}

/// Specifies how many days' worth of financing are charged on a given day of the week.
///
/// Some instruments charge multiple days of financing on a single day (e.g. triple
/// swap on Wednesdays for most spot FX pairs).
#[derive(Debug)]
pub struct FinancingDayOfWeek {
    /// The day on which the financing charge is applied.
    pub day_of_week: DayOfWeek,
    /// Number of days of financing charged on this day (typically 1, but 3 on rollover days).
    pub days_charged: i8,
}

/// Financing (swap/rollover) rates applied to long and short positions on an instrument.
#[derive(Debug)]
pub struct InstrumentFinancing {
    /// Daily financing rate applied to long positions (expressed as a decimal fraction).
    pub long_rate: DecimalNumber,
    /// Daily financing rate applied to short positions (expressed as a decimal fraction).
    pub short_rate: DecimalNumber,
    /// The days of the week on which financing is charged, and how many
    /// days are charged on each. `None` when OANDA omits the schedule.
    pub financing_days_of_week: Option<Vec<FinancingDayOfWeek>>,
}

/// Full specification of a tradeable instrument, including margin, precision,
/// financing, and GSLO rules.
///
/// Returned as part of [`ListInstrumentsResponse`] by
/// `GET /v3/accounts/{accountID}/instruments`.
#[derive(Debug)]
pub struct Instrument {
    /// The instrument name in `"BASE_QUOTE"` format (e.g. `"EUR_USD"`).
    pub name: String,
    /// The asset class of this instrument.
    pub instrument_type: InstrumentType,
    /// A human-readable display name (e.g. `"EUR/USD"`).
    pub display_name: String,
    /// The exponent of the pip value: a pip is `10^pip_location` price units.
    /// For example, `-4` means a pip is 0.0001.
    pub pip_location: i8,
    /// Number of decimal places to display for prices of this instrument.
    pub display_precision: i8,
    /// Number of decimal places to which trade unit sizes must be rounded.
    pub trade_units_precision: i8,
    /// Minimum number of units that can be traded in a single order.
    pub min_trade_size: DecimalNumber,
    /// Maximum allowed trailing stop distance, in price units.
    pub max_trailing_stop_distance: DecimalNumber,
    /// Minimum allowed distance for a Guaranteed Stop Loss Order, in price units.
    /// Only present when GSLOs are `Allowed` or `Required` for this instrument.
    pub min_guaranteed_stop_loss_distance: Option<DecimalNumber>,
    /// Minimum allowed trailing stop distance, in price units.
    pub min_trailing_stop_distance: DecimalNumber,
    /// Maximum aggregate position size allowed for this instrument, in units.
    /// `0` means no limit.
    pub max_position_size: DecimalNumber,
    /// Maximum number of units that can be specified in a single order.
    pub max_order_units: DecimalNumber,
    /// Margin rate expressed as a decimal (e.g. `0.05` for 5 % margin / 20:1 leverage).
    pub margin_rate: DecimalNumber,
    /// Commission structure for this instrument, if applicable.
    pub commission: Option<InstrumentCommission>,
    /// Whether GSLOs are disabled, allowed, or required for this instrument.
    pub guaranteed_stop_loss_order_mode: GuaranteedStopLossOrderModeForInstrument,
    /// Additional premium (in price units) charged when a GSLO is executed,
    /// above the normal spread. Only present when GSLOs are available.
    pub guaranteed_stop_loss_order_execution_premium: Option<DecimalNumber>,
    /// Volume-based restriction on where GSLOs may be placed. Only present
    /// when GSLOs are available.
    pub guaranteed_stop_loss_order_level_restriction: Option<GuaranteedStopLossOrderLevelRestriction>,
    /// Financing rates and schedule for this instrument.
    pub financing: InstrumentFinancing,
    /// Arbitrary metadata tags associated with this instrument.
    pub tags: Vec<Tag>,
}

/// Time granularity (bar size) of a candlestick series.
///
/// Variants follow the OANDA naming convention:
/// `S` = seconds, `M` = minutes, `H` = hours, `D` = day, `W` = week, `M` (last) = month.
#[derive(Debug, Clone, Copy, PartialEq, Eq, Structural)]
pub enum CandlestickGranularity {
    /// 5-second bars.
    S5,
    /// 10-second bars.
    S10,
    /// 15-second bars.
    S15,
    /// 30-second bars.
    S30,
    /// 1-minute bars.
    M1,
    /// 2-minute bars.
    M2,
    /// 4-minute bars.
    M4,
    /// 5-minute bars.
    M5,
    /// 10-minute bars.
    M10,
    /// 15-minute bars.
    M15,
    /// 30-minute bars.
    M30,
    /// 1-hour bars.
    H1,
    /// 2-hour bars.
    H2,
    /// 3-hour bars.
    H3,
    /// 4-hour bars.
    H4,
    /// 6-hour bars.
    H6,
    /// 8-hour bars.
    H8,
    /// 12-hour bars.
    H12,
    /// Daily bars.
    D,
    /// Weekly bars.
    W,
    /// Monthly bars.
    M,
}

/// The day on which weekly candlestick bars begin.
#[derive(Debug, Clone, Copy, PartialEq, Eq, Structural)]
pub enum WeeklyAlignment {
    Monday,
    Tuesday,
    Wednesday,
    Thursday,
    Friday,
    Saturday,
    Sunday,
}

/// A single OHLCV candlestick bar.
#[derive(Debug)]
pub struct Candlestick {
    /// The timestamp of the bar open (start of the period).
    pub time: Timestamp,
    /// Bid-side OHLC data, present when `"B"` is included in the price component.
    pub bid: Option<CandlestickData>,
    /// Ask-side OHLC data, present when `"A"` is included in the price component.
    pub ask: Option<CandlestickData>,
    /// Mid-point OHLC data, present when `"M"` is included in the price component.
    pub mid: Option<CandlestickData>,
    /// Number of ticks that contributed to this bar.
    pub volume: i16,
    /// `true` if the bar is complete (its period has fully elapsed).
    pub complete: bool,
}

/// OHLC (open, high, low, close) price data for one side of a candlestick.
#[derive(Debug)]
pub struct CandlestickData {
    /// Opening price of the period.
    pub open: PriceValue,
    /// Highest price reached during the period.
    pub high: PriceValue,
    /// Lowest price reached during the period.
    pub low: PriceValue,
    /// Closing price of the period.
    pub close: PriceValue,
}

/// Response body for `GET /v3/accounts/{accountID}/instruments`.
#[derive(Debug)]
pub struct ListInstrumentsResponse {
    /// The list of instruments available to the account.
    pub instruments: Vec<Instrument>,
    /// The ID of the most recent transaction on the account.
    pub last_transaction_id: TransactionID,
}

/// Builder for a `GET /v3/instruments/{instrument}/candles` request.
///
/// Construct via [`FetchCandlesticksRequest::new`], configure with the
/// builder methods, then pass to [`InstrumentService::fetch_candlesticks`].
///
/// # Example
///
/// ```no_run
/// use oanda_rust::instrument::{CandlestickGranularity, FetchCandlesticksRequest};
///
/// let req = FetchCandlesticksRequest::new("EUR_USD".to_string())
///     .mid()
///     .granularity(CandlestickGranularity::H1)
///     .count(100)
///     .unwrap();
/// ```
#[derive(Debug)]
pub struct FetchCandlesticksRequest {
    /// The instrument to fetch candles for.
    pub instrument: InstrumentName,
    /// Which price components to include (`"B"`, `"A"`, `"M"`, or any combination).
    price: PricingComponent,
    /// The granularity (bar size) of the candles.
    granularity: Option<CandlestickGranularity>,
    /// Maximum number of candles to return (1–5000).
    count: Option<usize>,
    /// Start of the requested time range (inclusive).
    from: Option<Timestamp>,
    /// End of the requested time range (exclusive).
    to: Option<Timestamp>,
    /// When `true`, each bar's open equals the previous bar's close (smooth candles).
    smooth: Option<bool>,
    /// When `true`, the first candle in the range is included even if it predates `from`.
    include_first: Option<bool>,
    /// Hour of the day (0–23) used as the alignment point for daily candles.
    daily_alignment: Option<u8>,
    /// IANA timezone name used with `daily_alignment` (e.g. `"America/New_York"`).
    alignment_timezone: Option<String>,
    /// Day of the week on which weekly bars begin.
    weekly_alignment: Option<WeeklyAlignment>,
}

/// Response body for `GET /v3/instruments/{instrument}/candles`.
#[derive(Debug)]
pub struct FetchCandlesticksResponse {
    /// The instrument the candles belong to.
    pub instrument: InstrumentName,
    /// The granularity of the returned candles.
    pub granularity: CandlestickGranularity,
    /// The candlestick bars, ordered chronologically.
    pub candles: Vec<Candlestick>,
}

impl CandlestickGranularity {
    /// The name of the variant, as written in this source.
    pub open spec fn variant_name(self) -> Seq<char> {
        match self {
            CandlestickGranularity::S5 => "S5"@,
            CandlestickGranularity::S10 => "S10"@,
            CandlestickGranularity::S15 => "S15"@,
            CandlestickGranularity::S30 => "S30"@,
            CandlestickGranularity::M1 => "M1"@,
            CandlestickGranularity::M2 => "M2"@,
            CandlestickGranularity::M4 => "M4"@,
            CandlestickGranularity::M5 => "M5"@,
            CandlestickGranularity::M10 => "M10"@,
            CandlestickGranularity::M15 => "M15"@,
            CandlestickGranularity::M30 => "M30"@,
            CandlestickGranularity::H1 => "H1"@,
            CandlestickGranularity::H2 => "H2"@,
            CandlestickGranularity::H3 => "H3"@,
            CandlestickGranularity::H4 => "H4"@,
            CandlestickGranularity::H6 => "H6"@,
            CandlestickGranularity::H8 => "H8"@,
            CandlestickGranularity::H12 => "H12"@,
            CandlestickGranularity::D => "D"@,
            CandlestickGranularity::W => "W"@,
            CandlestickGranularity::M => "M"@,
        }
    }

    /// The name OANDA gives the granularity (the variant name, such as `M1`).
    pub open spec fn wire_name(self) -> Seq<char> {
        match self {
            CandlestickGranularity::S5 => "S5"@,
            CandlestickGranularity::S10 => "S10"@,
            CandlestickGranularity::S15 => "S15"@,
            CandlestickGranularity::S30 => "S30"@,
            CandlestickGranularity::M1 => "M1"@,
            CandlestickGranularity::M2 => "M2"@,
            CandlestickGranularity::M4 => "M4"@,
            CandlestickGranularity::M5 => "M5"@,
            CandlestickGranularity::M10 => "M10"@,
            CandlestickGranularity::M15 => "M15"@,
            CandlestickGranularity::M30 => "M30"@,
            CandlestickGranularity::H1 => "H1"@,
            CandlestickGranularity::H2 => "H2"@,
            CandlestickGranularity::H3 => "H3"@,
            CandlestickGranularity::H4 => "H4"@,
            CandlestickGranularity::H6 => "H6"@,
            CandlestickGranularity::H8 => "H8"@,
            CandlestickGranularity::H12 => "H12"@,
            CandlestickGranularity::D => "D"@,
            CandlestickGranularity::W => "W"@,
            CandlestickGranularity::M => "M"@,
        }
    }

    /// The name OANDA gives the granularity (the variant name, such as `M1`).
    pub fn as_str(&self) -> (s: &'static str)
        ensures
            s@ == self.wire_name(),
    {
        match self {
            CandlestickGranularity::S5 => "S5",
            CandlestickGranularity::S10 => "S10",
            CandlestickGranularity::S15 => "S15",
            CandlestickGranularity::S30 => "S30",
            CandlestickGranularity::M1 => "M1",
            CandlestickGranularity::M2 => "M2",
            CandlestickGranularity::M4 => "M4",
            CandlestickGranularity::M5 => "M5",
            CandlestickGranularity::M10 => "M10",
            CandlestickGranularity::M15 => "M15",
            CandlestickGranularity::M30 => "M30",
            CandlestickGranularity::H1 => "H1",
            CandlestickGranularity::H2 => "H2",
            CandlestickGranularity::H3 => "H3",
            CandlestickGranularity::H4 => "H4",
            CandlestickGranularity::H6 => "H6",
            CandlestickGranularity::H8 => "H8",
            CandlestickGranularity::H12 => "H12",
            CandlestickGranularity::D => "D",
            CandlestickGranularity::W => "W",
            CandlestickGranularity::M => "M",
        }
    }

    /// The name as an owned string.
    pub fn to_string(&self) -> (s: String)
        ensures
            s@ == self.wire_name(),
    {
        String::from_str(self.as_str())
    }
}

impl WeeklyAlignment {
    /// The name of the variant, as written in this source.
    pub open spec fn variant_name(self) -> Seq<char> {
        match self {
            WeeklyAlignment::Monday => "Monday"@,
            WeeklyAlignment::Tuesday => "Tuesday"@,
            WeeklyAlignment::Wednesday => "Wednesday"@,
            WeeklyAlignment::Thursday => "Thursday"@,
            WeeklyAlignment::Friday => "Friday"@,
            WeeklyAlignment::Saturday => "Saturday"@,
            WeeklyAlignment::Sunday => "Sunday"@,
        }
    }

    /// The name OANDA gives the day (the variant name, such as `Friday`).
    pub open spec fn wire_name(self) -> Seq<char> {
        match self {
            WeeklyAlignment::Monday => "Monday"@,
            WeeklyAlignment::Tuesday => "Tuesday"@,
            WeeklyAlignment::Wednesday => "Wednesday"@,
            WeeklyAlignment::Thursday => "Thursday"@,
            WeeklyAlignment::Friday => "Friday"@,
            WeeklyAlignment::Saturday => "Saturday"@,
            WeeklyAlignment::Sunday => "Sunday"@,
        }
    }

    /// The name OANDA gives the day (the variant name, such as `Friday`).
    pub fn as_str(&self) -> (s: &'static str)
        ensures
            s@ == self.wire_name(),
    {
        match self {
            WeeklyAlignment::Monday => "Monday",
            WeeklyAlignment::Tuesday => "Tuesday",
            WeeklyAlignment::Wednesday => "Wednesday",
            WeeklyAlignment::Thursday => "Thursday",
            WeeklyAlignment::Friday => "Friday",
            WeeklyAlignment::Saturday => "Saturday",
            WeeklyAlignment::Sunday => "Sunday",
        }
    }

    /// The name as an owned string.
    pub fn to_string(&self) -> (s: String)
        ensures
            s@ == self.wire_name(),
    {
        String::from_str(self.as_str())
    }
}


/// The parameters of a [`FetchCandlesticksRequest`].
pub struct CandlesQuery {
    /// The instrument to fetch candles for.
    pub instrument: Seq<char>,
    /// The price components, one character each (`B`, `A`, `M`), in the
    /// order they were added.
    pub price: Seq<char>,
    /// The bar size.
    pub granularity: Option<CandlestickGranularity>,
    /// The largest number of candles to return.
    pub count: Option<usize>,
    /// The start of the time range.
    pub from: Option<Timestamp>,
    /// The end of the time range.
    pub to: Option<Timestamp>,
    /// Whether candles are smoothed.
    pub smooth: Option<bool>,
    /// Whether the first candle of the range is included.
    pub include_first: Option<bool>,
    /// The hour of day that daily candles start at.
    pub daily_alignment: Option<u8>,
    /// The time zone of the daily alignment.
    pub alignment_timezone: Option<Seq<char>>,
    /// The day that weekly candles start on.
    pub weekly_alignment: Option<WeeklyAlignment>,
}

impl View for FetchCandlesticksRequest {
    type V = CandlesQuery;

    closed spec fn view(&self) -> CandlesQuery {
        CandlesQuery {
            instrument: self.instrument@,
            price: self.price@,
            granularity: self.granularity,
            count: self.count,
            from: self.from,
            to: self.to,
            smooth: self.smooth,
            include_first: self.include_first,
            daily_alignment: self.daily_alignment,
            alignment_timezone: self.alignment_timezone.deep_view(),
            weekly_alignment: self.weekly_alignment,
        }
    }
}

/// The largest number of candles one request may ask for.
pub const MAX_CANDLE_COUNT: usize = 5000;

/// The first query pairs of a candles request: `price` (when not empty),
/// `granularity` and `count`, each only when set.
pub open spec fn candles_head_pairs(q: CandlesQuery) -> Seq<(Seq<char>, Seq<char>)> {
    optional_pair(
        "price"@,
        if q.price.len() > 0 {
            Some(q.price)
        } else {
            None
        },
    ) + optional_pair(
        "granularity"@,
        match q.granularity {
            Some(g) => Some(g.wire_name()),
            None => None,
        },
    ) + optional_pair(
        "count"@,
        match q.count {
            Some(c) => Some(decimal(c as nat)),
            None => None,
        },
    )
}

/// The last query pairs of a candles request: `smooth`, `includeFirst`,
/// `dailyAlignment`, `alignmentTimezone` and `weeklyAlignment`, each only
/// when set.
pub open spec fn candles_tail_pairs(q: CandlesQuery) -> Seq<(Seq<char>, Seq<char>)> {
    optional_pair(
        "smooth"@,
        match q.smooth {
            Some(b) => Some(bool_text(b)),
            None => None,
        },
    ) + optional_pair(
        "includeFirst"@,
        match q.include_first {
            Some(b) => Some(bool_text(b)),
            None => None,
        },
    ) + optional_pair(
        "dailyAlignment"@,
        match q.daily_alignment {
            Some(h) => Some(decimal(h as nat)),
            None => None,
        },
    ) + optional_pair("alignmentTimezone"@, q.alignment_timezone) + optional_pair(
        "weeklyAlignment"@,
        match q.weekly_alignment {
            Some(w) => Some(w.wire_name()),
            None => None,
        },
    )
}

/// The query pairs of a candles request, given the texts written for its
/// `from` and `to` instants: the first pairs, then `from` and `to` when
/// set, then the last pairs.
pub open spec fn candles_pairs(
    q: CandlesQuery,
    from_text: Option<Seq<char>>,
    to_text: Option<Seq<char>>,
) -> Seq<(Seq<char>, Seq<char>)> {
    candles_head_pairs(q) + optional_pair("from"@, from_text) + optional_pair("to"@, to_text)
        + candles_tail_pairs(q)
}

/// How many parameters of a candles request are set, counting the price
/// components as one when there are any, and `from` and `to` when texts are
/// given for them.
pub open spec fn candle_parameter_count(
    q: CandlesQuery,
    from_text: Option<Seq<char>>,
    to_text: Option<Seq<char>>,
) -> int {
    (if q.price.len() > 0 { 1int } else { 0int }) + (if q.granularity is Some { 1int } else { 0int })
        + (if q.count is Some { 1int } else { 0int }) + (if from_text is Some { 1int } else { 0int })
        + (if to_text is Some { 1int } else { 0int }) + (if q.smooth is Some { 1int } else { 0int })
        + (if q.include_first is Some { 1int } else { 0int }) + (if q.daily_alignment is Some {
        1int
    } else {
        0int
    }) + (if q.alignment_timezone is Some { 1int } else { 0int }) + (if q.weekly_alignment is Some {
        1int
    } else {
        0int
    })
}

/// Every parameter set on a candles request is written, under its own key,
/// whatever the other parameters are, with its text as the value: the
/// daily alignment hour `h` (0 to 23) as the decimal digits of `h`, which
/// read back as `h` (hour 0 as `0`), the count in decimal, `smooth` and
/// `includeFirst` as `true` or `false`, the price components when there
/// are any, and `from` and `to` as the texts given for them. Nothing else
/// is written: there is one pair for each set parameter.
pub proof fn lemma_candle_query_writes_each_set_parameter(
    q: CandlesQuery,
    from_text: Option<Seq<char>>,
    to_text: Option<Seq<char>>,
)
    ensures
        q.daily_alignment matches Some(h) ==> {
            &&& candles_pairs(q, from_text, to_text).contains(("dailyAlignment"@, decimal(h as nat)))
            &&& decimal_i64(decimal(h as nat)) == Some(h as i64)
        },
        q.daily_alignment == Some(0u8) ==> candles_pairs(q, from_text, to_text).contains(
            ("dailyAlignment"@, "0"@),
        ),
        q.count matches Some(c) ==> candles_pairs(q, from_text, to_text).contains(
            ("count"@, decimal(c as nat)),
        ),
        q.smooth matches Some(b) ==> candles_pairs(q, from_text, to_text).contains(
            ("smooth"@, bool_text(b)),
        ),
        q.include_first matches Some(b) ==> candles_pairs(q, from_text, to_text).contains(
            ("includeFirst"@, bool_text(b)),
        ),
        q.price.len() > 0 ==> candles_pairs(q, from_text, to_text).contains(("price"@, q.price)),
        q.granularity matches Some(g) ==> candles_pairs(q, from_text, to_text).contains(
            ("granularity"@, g.wire_name()),
        ),
        q.alignment_timezone matches Some(z) ==> candles_pairs(q, from_text, to_text).contains(
            ("alignmentTimezone"@, z),
        ),
        q.weekly_alignment matches Some(w) ==> candles_pairs(q, from_text, to_text).contains(
            ("weeklyAlignment"@, w.wire_name()),
        ),
        from_text matches Some(x) ==> candles_pairs(q, from_text, to_text).contains(("from"@, x)),
        to_text matches Some(x) ==> candles_pairs(q, from_text, to_text).contains(("to"@, x)),
        candles_pairs(q, from_text, to_text).len() == candle_parameter_count(q, from_text, to_text),
{
    lemma_candle_query_length(q, from_text, to_text);
    let pairs = candles_pairs(q, from_text, to_text);
    let head = candles_head_pairs(q);
    let f = optional_pair("from"@, from_text);
    let t = optional_pair("to"@, to_text);
    let tail = candles_tail_pairs(q);
    assert(pairs == head + f + t + tail);
    lemma_candle_head_pairs_contain(q);
    lemma_candle_tail_pairs_contain(q);
    if q.price.len() > 0 {
        lemma_candle_parts_contain(head, f, t, tail, ("price"@, q.price));
    }
    if q.granularity is Some {
        lemma_candle_parts_contain(head, f, t, tail, ("granularity"@, q.granularity->0.wire_name()));
    }
    if q.count is Some {
        lemma_candle_parts_contain(head, f, t, tail, ("count"@, decimal(q.count->0 as nat)));
    }
    if from_text is Some {
        assert(f[0] == ("from"@, from_text->0));
        lemma_candle_parts_contain(head, f, t, tail, ("from"@, from_text->0));
    }
    if to_text is Some {
        assert(t[0] == ("to"@, to_text->0));
        lemma_candle_parts_contain(head, f, t, tail, ("to"@, to_text->0));
    }
    if q.smooth is Some {
        lemma_candle_parts_contain(head, f, t, tail, ("smooth"@, bool_text(q.smooth->0)));
    }
    if q.include_first is Some {
        lemma_candle_parts_contain(head, f, t, tail, ("includeFirst"@, bool_text(q.include_first->0)));
    }
    if q.daily_alignment is Some {
        let h = q.daily_alignment->0;
        lemma_candle_parts_contain(head, f, t, tail, ("dailyAlignment"@, decimal(h as nat)));
        lemma_liquidity_reads_its_text(h as i64);
        if h == 0 {
            reveal_strlit("0");
            assert(decimal(0) =~= "0"@);
        }
    }
    if q.alignment_timezone is Some {
        lemma_candle_parts_contain(head, f, t, tail, ("alignmentTimezone"@, q.alignment_timezone->0));
    }
    if q.weekly_alignment is Some {
        lemma_candle_parts_contain(head, f, t, tail, ("weeklyAlignment"@, q.weekly_alignment->0.wire_name()));
    }
}

/// A candles query holds one pair for each set parameter.
proof fn lemma_candle_query_length(q: CandlesQuery, from_text: Option<Seq<char>>, to_text: Option<Seq<char>>)
    ensures
        candles_pairs(q, from_text, to_text).len() == candle_parameter_count(q, from_text, to_text),
{
    lemma_candle_head_length(q);
    lemma_candle_tail_length(q);
}

/// The first pairs of a candles query: one for each set first parameter.
proof fn lemma_candle_head_length(q: CandlesQuery)
    ensures
        candles_head_pairs(q).len() == (if q.price.len() > 0 { 1int } else { 0int }) + (
        if q.granularity is Some {
            1int
        } else {
            0int
        }) + (if q.count is Some { 1int } else { 0int }),
{
}

/// The last pairs of a candles query: one for each set last parameter.
proof fn lemma_candle_tail_length(q: CandlesQuery)
    ensures
        candles_tail_pairs(q).len() == (if q.smooth is Some { 1int } else { 0int }) + (
        if q.include_first is Some {
            1int
        } else {
            0int
        }) + (if q.daily_alignment is Some { 1int } else { 0int }) + (if q.alignment_timezone is Some {
            1int
        } else {
            0int
        }) + (if q.weekly_alignment is Some { 1int } else { 0int }),
{
}

/// A pair of any of the four parts of a candles query is a pair of the query.
proof fn lemma_candle_parts_contain(
    head: Seq<(Seq<char>, Seq<char>)>,
    f: Seq<(Seq<char>, Seq<char>)>,
    t: Seq<(Seq<char>, Seq<char>)>,
    tail: Seq<(Seq<char>, Seq<char>)>,
    x: (Seq<char>, Seq<char>),
)
    requires
        head.contains(x) || f.contains(x) || t.contains(x) || tail.contains(x),
    ensures
        (head + f + t + tail).contains(x),
{
    lemma_joined_pairs_contain(head, f, x);
    lemma_joined_pairs_contain(head + f, t, x);
    lemma_joined_pairs_contain(head + f + t, tail, x);
}

/// The first pairs of a candles query hold each of its set first parameters.
proof fn lemma_candle_head_pairs_contain(q: CandlesQuery)
    ensures
        q.price.len() > 0 ==> candles_head_pairs(q).contains(("price"@, q.price)),
        q.granularity matches Some(g) ==> candles_head_pairs(q).contains(("granularity"@, g.wire_name())),
        q.count matches Some(c) ==> candles_head_pairs(q).contains(("count"@, decimal(c as nat))),
{
    let p1 = optional_pair("price"@, if q.price.len() > 0 { Some(q.price) } else { None });
    let p2 = optional_pair(
        "granularity"@,
        match q.granularity {
            Some(g) => Some(g.wire_name()),
            None => None,
        },
    );
    let p3 = optional_pair(
        "count"@,
        match q.count {
            Some(c) => Some(decimal(c as nat)),
            None => None,
        },
    );
    assert(candles_head_pairs(q) == p1 + p2 + p3);
    if q.price.len() > 0 {
        let x = ("price"@, q.price);
        assert(p1[0] == x);
        lemma_joined_pairs_contain(p1, p2, x);
        lemma_joined_pairs_contain(p1 + p2, p3, x);
    }
    if q.granularity is Some {
        let x = ("granularity"@, q.granularity->0.wire_name());
        assert(p2[0] == x);
        lemma_joined_pairs_contain(p1, p2, x);
        lemma_joined_pairs_contain(p1 + p2, p3, x);
    }
    if q.count is Some {
        let x = ("count"@, decimal(q.count->0 as nat));
        assert(p3[0] == x);
        lemma_joined_pairs_contain(p1 + p2, p3, x);
    }
}

/// The last pairs of a candles query hold each of its set last parameters.
proof fn lemma_candle_tail_pairs_contain(q: CandlesQuery)
    ensures
        q.smooth matches Some(b) ==> candles_tail_pairs(q).contains(("smooth"@, bool_text(b))),
        q.include_first matches Some(b) ==> candles_tail_pairs(q).contains(
            ("includeFirst"@, bool_text(b)),
        ),
        q.daily_alignment matches Some(h) ==> candles_tail_pairs(q).contains(
            ("dailyAlignment"@, decimal(h as nat)),
        ),
        q.alignment_timezone matches Some(z) ==> candles_tail_pairs(q).contains(
            ("alignmentTimezone"@, z),
        ),
        q.weekly_alignment matches Some(w) ==> candles_tail_pairs(q).contains(
            ("weeklyAlignment"@, w.wire_name()),
        ),
{
    let s1 = optional_pair(
        "smooth"@,
        match q.smooth {
            Some(b) => Some(bool_text(b)),
            None => None,
        },
    );
    let s2 = optional_pair(
        "includeFirst"@,
        match q.include_first {
            Some(b) => Some(bool_text(b)),
            None => None,
        },
    );
    let s3 = optional_pair(
        "dailyAlignment"@,
        match q.daily_alignment {
            Some(h) => Some(decimal(h as nat)),
            None => None,
        },
    );
    let s4 = optional_pair("alignmentTimezone"@, q.alignment_timezone);
    let s5 = optional_pair(
        "weeklyAlignment"@,
        match q.weekly_alignment {
            Some(w) => Some(w.wire_name()),
            None => None,
        },
    );
    assert(candles_tail_pairs(q) == s1 + s2 + s3 + s4 + s5);
    lemma_tail_parts_contain(s1, s2, s3, s4, s5);
    if q.smooth is Some {
        assert(s1[0] == ("smooth"@, bool_text(q.smooth->0)));
    }
    if q.include_first is Some {
        assert(s2[0] == ("includeFirst"@, bool_text(q.include_first->0)));
    }
    if q.daily_alignment is Some {
        assert(s3[0] == ("dailyAlignment"@, decimal(q.daily_alignment->0 as nat)));
    }
    if q.alignment_timezone is Some {
        assert(s4[0] == ("alignmentTimezone"@, q.alignment_timezone->0));
    }
    if q.weekly_alignment is Some {
        assert(s5[0] == ("weeklyAlignment"@, q.weekly_alignment->0.wire_name()));
    }
}

/// A pair of any of five lists of pairs that hold at most one pair each is
/// a pair of the five joined.
proof fn lemma_tail_parts_contain(
    s1: Seq<(Seq<char>, Seq<char>)>,
    s2: Seq<(Seq<char>, Seq<char>)>,
    s3: Seq<(Seq<char>, Seq<char>)>,
    s4: Seq<(Seq<char>, Seq<char>)>,
    s5: Seq<(Seq<char>, Seq<char>)>,
)
    ensures
        forall|x: (Seq<char>, Seq<char>)|
            s1.contains(x) || s2.contains(x) || s3.contains(x) || s4.contains(x) || s5.contains(x)
                ==> #[trigger] (s1 + s2 + s3 + s4 + s5).contains(x),
{
    assert forall|x: (Seq<char>, Seq<char>)|
        s1.contains(x) || s2.contains(x) || s3.contains(x) || s4.contains(x) || s5.contains(x)
            implies #[trigger] (s1 + s2 + s3 + s4 + s5).contains(x) by {
        lemma_joined_pairs_contain(s1, s2, x);
        lemma_joined_pairs_contain(s1 + s2, s3, x);
        lemma_joined_pairs_contain(s1 + s2 + s3, s4, x);
        lemma_joined_pairs_contain(s1 + s2 + s3 + s4, s5, x);
    }
}

/// Each granularity is named on the wire by its variant name, unchanged:
/// `M1` as `M1`.
pub proof fn lemma_granularity_wire_name_is_variant_name(v: CandlestickGranularity)
    ensures
        v.wire_name() == v.variant_name(),
{
}

/// Each weekly alignment day is named on the wire by its variant name, unchanged:
/// `Friday` as `Friday`.
pub proof fn lemma_weekly_alignment_wire_name_is_variant_name(v: WeeklyAlignment)
    ensures
        v.wire_name() == v.variant_name(),
{
}

fn as_opt_str(s: &Option<String>) -> (r: Option<&str>)
    ensures
        match r {
            Some(v) => s.deep_view() == Some(v@),
            None => s is None,
        },
{
    match s {
        Some(v) => Some(v.as_str()),
        None => None,
    }
}

fn local_text(t: &Option<Timestamp>) -> (s: Option<String>)
    ensures
        local_text_of(*t, s.deep_view()),
{
    match t {
        Some(instant) => Some(instant.local_display()),
        None => None,
    }
}

impl FetchCandlesticksRequest {
    /// Creates a new request for the given instrument with no parameters set.
    ///
    /// Call the builder methods (`bid`, `ask`, `mid`, `granularity`, etc.) to
    /// configure the request before passing it to
    /// [`InstrumentService::fetch_candlesticks`].
    pub fn new(instrument: InstrumentName) -> (r: Self)
        ensures
            r@ == (CandlesQuery {
                instrument: instrument@,
                price: Seq::<char>::empty(),
                granularity: None,
                count: None,
                from: None,
                to: None,
                smooth: None,
                include_first: None,
                daily_alignment: None,
                alignment_timezone: None,
                weekly_alignment: None,
            }),
    {
        FetchCandlesticksRequest {
            instrument,
            price: String::new(),
            granularity: None,
            count: None,
            from: None,
            to: None,
            smooth: None,
            include_first: None,
            daily_alignment: None,
            alignment_timezone: None,
            weekly_alignment: None,
        }
    }

    /// Includes bid-side (`"B"`) OHLC data in the response.
    pub fn bid(self) -> (r: Self)
        ensures
            r@ == (CandlesQuery { price: self@.price.push('B'), ..self@ }),
    {
        proof {
            reveal_strlit("B");
        }
        let mut r = self;
        let ghost before = r.price@;
        r.price.append("B");
        proof {
            assert(r.price@ =~= before.push('B'));
        }
        r
    }

    /// Includes ask-side (`"A"`) OHLC data in the response.
    pub fn ask(self) -> (r: Self)
        ensures
            r@ == (CandlesQuery { price: self@.price.push('A'), ..self@ }),
    {
        proof {
            reveal_strlit("A");
        }
        let mut r = self;
        let ghost before = r.price@;
        r.price.append("A");
        proof {
            assert(r.price@ =~= before.push('A'));
        }
        r
    }

    /// Includes mid-point (`"M"`) OHLC data in the response.
    pub fn mid(self) -> (r: Self)
        ensures
            r@ == (CandlesQuery { price: self@.price.push('M'), ..self@ }),
    {
        proof {
            reveal_strlit("M");
        }
        let mut r = self;
        let ghost before = r.price@;
        r.price.append("M");
        proof {
            assert(r.price@ =~= before.push('M'));
        }
        r
    }

    /// Sets the bar size for the returned candles.
    pub fn granularity(self, granularity: CandlestickGranularity) -> (r: Self)
        ensures
            r@ == (CandlesQuery { granularity: Some(granularity), ..self@ }),
    {
        let mut r = self;
        r.granularity = Some(granularity);
        r
    }

    /// Sets the maximum number of candles to return.
    ///
    /// # Errors
    ///
    /// Returns [`APIError::InvalidRequest`] if `count` is greater than 5000.
    pub fn count(self, count: usize) -> (r: Result<Self, APIError>)
        ensures
            r is Ok <==> count <= MAX_CANDLE_COUNT,
            r matches Ok(v) ==> v@ == (CandlesQuery { count: Some(count), ..self@ }),
            r matches Err(e) ==> invalid_request_message(e) == Some("count must be <= 5000"@),
    {
        if count <= MAX_CANDLE_COUNT {
            let mut r = self;
            r.count = Some(count);
            Ok(r)
        } else {
            Err(invalid_request("count must be <= 5000"))
        }
    }

    /// Sets the start of the requested time range (inclusive).
    pub fn from(self, from: Timestamp) -> (r: Self)
        ensures
            r@ == (CandlesQuery { from: Some(from), ..self@ }),
    {
        let mut r = self;
        r.from = Some(from);
        r
    }

    /// Sets the end of the requested time range (exclusive).
    pub fn to(self, to: Timestamp) -> (r: Self)
        ensures
            r@ == (CandlesQuery { to: Some(to), ..self@ }),
    {
        let mut r = self;
        r.to = Some(to);
        r
    }

    /// When set to `true`, each bar's open price equals the previous bar's close
    /// (smooth/continuous candles). Defaults to `false` (standard OHLC).
    pub fn smooth(self, smooth: bool) -> (r: Self)
        ensures
            r@ == (CandlesQuery { smooth: Some(smooth), ..self@ }),
    {
        let mut r = self;
        r.smooth = Some(smooth);
        r
    }

    /// When set to `true`, the first candle in the range is included in the
    /// response even if its open time is earlier than `from`.
    pub fn include_first(self, include_first: bool) -> (r: Self)
        ensures
            r@ == (CandlesQuery { include_first: Some(include_first), ..self@ }),
    {
        let mut r = self;
        r.include_first = Some(include_first);
        r
    }

    /// Sets the hour of day (0–23, server-local time) used as the alignment
    /// boundary for daily candles.
    pub fn daily_alignment(self, daily_alignment: u8) -> (r: Self)
        ensures
            r@ == (CandlesQuery { daily_alignment: Some(daily_alignment), ..self@ }),
    {
        let mut r = self;
        r.daily_alignment = Some(daily_alignment);
        r
    }

    /// Sets the IANA timezone used in conjunction with `daily_alignment`
    /// (e.g. `"America/New_York"`).
    pub fn alignment_timezone(self, alignment_timezone: String) -> (r: Self)
        ensures
            r@ == (CandlesQuery { alignment_timezone: Some(alignment_timezone@), ..self@ }),
    {
        let mut r = self;
        r.alignment_timezone = Some(alignment_timezone);
        r
    }

    /// Sets the day of the week on which weekly bars begin.
    pub fn weekly_alignment(self, weekly_alignment: WeeklyAlignment) -> (r: Self)
        ensures
            r@ == (CandlesQuery { weekly_alignment: Some(weekly_alignment), ..self@ }),
    {
        let mut r = self;
        r.weekly_alignment = Some(weekly_alignment);
        r
    }

    fn append_head_pairs(&self, url: &mut Url)
        ensures
            final(url)@.base == old(url)@.base,
            final(url)@.segments == old(url)@.segments,
            final(url)@.pairs == old(url)@.pairs + candles_head_pairs(self@),
    {
        let ghost start = url@.pairs;
        url.append_optional_pair(
            "price",
            if self.price.as_str().unicode_len() > 0 {
                Some(self.price.as_str())
            } else {
                None
            },
        );
        url.append_optional_pair(
            "granularity",
            match &self.granularity {
                Some(g) => Some(g.as_str()),
                None => None,
            },
        );
        let count = match self.count {
            Some(c) => Some(decimal_string(c as u64)),
            None => None,
        };
        url.append_optional_pair("count", as_opt_str(&count));
        proof {
            assert(url@.pairs =~= start + candles_head_pairs(self@));
        }
    }

    #[verifier::rlimit(50)]
    fn append_tail_pairs(&self, url: &mut Url)
        ensures
            final(url)@.base == old(url)@.base,
            final(url)@.segments == old(url)@.segments,
            final(url)@.pairs == old(url)@.pairs + candles_tail_pairs(self@),
    {
        let ghost start = url@.pairs;
        let smooth = match self.smooth {
            Some(b) => Some(bool_string(b)),
            None => None,
        };
        url.append_optional_pair("smooth", as_opt_str(&smooth));
        let include_first = match self.include_first {
            Some(b) => Some(bool_string(b)),
            None => None,
        };
        url.append_optional_pair("includeFirst", as_opt_str(&include_first));
        let daily = match self.daily_alignment {
            Some(h) => Some(decimal_string(h as u64)),
            None => None,
        };
        url.append_optional_pair("dailyAlignment", as_opt_str(&daily));
        url.append_optional_pair("alignmentTimezone", as_opt_str(&self.alignment_timezone));
        url.append_optional_pair(
            "weeklyAlignment",
            match &self.weekly_alignment {
                Some(w) => Some(w.as_str()),
                None => None,
            },
        );
        proof {
            assert(url@.pairs =~= start + candles_tail_pairs(self@));
        }
    }

    /// Appends the configured query parameters to `url`, with `from_text`
    /// and `to_text` as the values of `from` and `to`.
    #[verifier::rlimit(50)]
    pub fn set_params_with_times(
        &self,
        url: &mut Url,
        from_text: Option<&str>,
        to_text: Option<&str>,
    )
        ensures
            final(url)@.base == old(url)@.base,
            final(url)@.segments == old(url)@.segments,
            final(url)@.pairs == old(url)@.pairs + candles_pairs(
                self@,
                match from_text {
                    Some(t) => Some(t@),
                    None => None,
                },
                match to_text {
                    Some(t) => Some(t@),
                    None => None,
                },
            ),
    {
        let ghost start = url@.pairs;
        self.append_head_pairs(url);
        url.append_optional_pair("from", from_text);
        url.append_optional_pair("to", to_text);
        self.append_tail_pairs(url);
        proof {
            let ft = match from_text {
                Some(t) => Some(t@),
                None => None,
            };
            let tt = match to_text {
                Some(t) => Some(t@),
                None => None,
            };
            assert(url@.pairs =~= start + candles_pairs(self@, ft, tt));
        }
    }

    /// Appends all configured query parameters to `url`.
    ///
    /// `from` and `to` are written as chrono writes a time in the machine's
    /// local time zone: the instant shown at the UTC offset that zone has at
    /// that instant. Which offset that is depends on the machine; every
    /// other value is fixed by the request.
    pub fn set_params(&self, url: &mut Url)
        ensures
            final(url)@.base == old(url)@.base,
            final(url)@.segments == old(url)@.segments,
            exists|from_text: Option<Seq<char>>, to_text: Option<Seq<char>>|
                {
                    &&& local_text_of(self@.from, from_text)
                    &&& local_text_of(self@.to, to_text)
                    &&& final(url)@.pairs == old(url)@.pairs + candles_pairs(
                        self@,
                        from_text,
                        to_text,
                    )
                },
    {
        let from = local_text(&self.from);
        let to = local_text(&self.to);
        self.set_params_with_times(url, as_opt_str(&from), as_opt_str(&to));
        proof {
            let ft = from.deep_view();
            let tt = to.deep_view();
            assert(url@.pairs == old(url)@.pairs + candles_pairs(self@, ft, tt));
        }
    }
}


/// Provides access to the OANDA Instrument endpoints.
pub struct InstrumentService<'a> {
    connection: &'a Connection,
}

impl<'a> InstrumentService<'a> {
    /// Creates a new `InstrumentService` bound to the given connection.
    pub fn new(connection: &'a Connection) -> (s: Self)
        ensures
            s.connection() == connection,
    {
        InstrumentService { connection }
    }

    /// The connection the service is bound to.
    pub closed spec fn connection(&self) -> &'a Connection {
        self.connection
    }

    /// Lists the instruments of the connection's default account:
    /// `GET /v3/accounts/{accountID}/instruments`.
    pub fn list(&self) -> (r: Result<Endpoint, APIError>)
        ensures
            endpoint_matches(
                r,
                self.connection().base_url,
                account_url_outcome(
                    self.connection().base_url,
                    self.connection().account_id.deep_view(),
                    seq!["instruments"@],
                ),
                Seq::empty(),
                Method::Get,
                200,
                RejectRule::NoReject,
            ),
    {
        let url = self.connection.account_url(&path1("instruments"));
        endpoint_at(url, Method::Get, 200, RejectRule::NoReject)
    }

    /// Fetches candlesticks: `GET /v3/instruments/{instrument}/candles` with
    /// the instrument name trimmed and the query of `req`. Its `from` and
    /// `to` are written as chrono writes a time in the machine's local time
    /// zone: the instant shown at the UTC offset that zone has at that
    /// instant.
    #[verifier::rlimit(40)]
    pub fn fetch_candlesticks(&self, req: &FetchCandlesticksRequest) -> (r: Result<
        Endpoint,
        APIError,
    >)
        ensures
            exists|from_text: Option<Seq<char>>, to_text: Option<Seq<char>>|
                {
                    &&& local_text_of(req@.from, from_text)
                    &&& local_text_of(req@.to, to_text)
                    &&& endpoint_matches(
                        r,
                        self.connection().base_url,
                        api_url_outcome(
                            self.connection().base_url,
                            seq!["v3"@, "instruments"@, trim_ws(req@.instrument), "candles"@],
                        ),
                        candles_pairs(req@, from_text, to_text),
                        Method::Get,
                        200,
                        RejectRule::NoReject,
                    )
                },
    {
        let from = local_text(&req.from);
        let to = local_text(&req.to);
        let ghost ft = from.deep_view();
        let ghost tt = to.deep_view();
        let name = trim(req.instrument.as_str());
        let r = match api_url(
            &self.connection.base_url,
            &path4("v3", "instruments", name.as_str(), "candles"),
        ) {
            Ok(u) => {
                let mut url = u;
                req.set_params_with_times(&mut url, as_opt_str(&from), as_opt_str(&to));
                Ok(Endpoint { method: Method::Get, url, success: 200, reject: RejectRule::NoReject })
            },
            Err(e) => Err(e),
        };
        proof {
            assert(endpoint_matches(
                r,
                self.connection().base_url,
                api_url_outcome(
                    self.connection().base_url,
                    seq!["v3"@, "instruments"@, trim_ws(req@.instrument), "candles"@],
                ),
                candles_pairs(req@, ft, tt),
                Method::Get,
                200,
                RejectRule::NoReject,
            ));
        }
        r
    }
}

impl CandlestickGranularity {
    /// The value whose OANDA name is `name`, if any.
    pub fn from_name(name: &str) -> (r: Option<Self>)
        ensures
            match r {
                Some(v) => v.wire_name() == name@,
                None => forall|v: Self| v.wire_name() != name@,
            },
    {
        if str_eq(name, CandlestickGranularity::S5.as_str()) {
            Some(CandlestickGranularity::S5)
        } else if str_eq(name, CandlestickGranularity::S10.as_str()) {
            Some(CandlestickGranularity::S10)
        } else if str_eq(name, CandlestickGranularity::S15.as_str()) {
            Some(CandlestickGranularity::S15)
        } else if str_eq(name, CandlestickGranularity::S30.as_str()) {
            Some(CandlestickGranularity::S30)
        } else if str_eq(name, CandlestickGranularity::M1.as_str()) {
            Some(CandlestickGranularity::M1)
        } else if str_eq(name, CandlestickGranularity::M2.as_str()) {
            Some(CandlestickGranularity::M2)
        } else if str_eq(name, CandlestickGranularity::M4.as_str()) {
            Some(CandlestickGranularity::M4)
        } else if str_eq(name, CandlestickGranularity::M5.as_str()) {
            Some(CandlestickGranularity::M5)
        } else if str_eq(name, CandlestickGranularity::M10.as_str()) {
            Some(CandlestickGranularity::M10)
        } else if str_eq(name, CandlestickGranularity::M15.as_str()) {
            Some(CandlestickGranularity::M15)
        } else if str_eq(name, CandlestickGranularity::M30.as_str()) {
            Some(CandlestickGranularity::M30)
        } else if str_eq(name, CandlestickGranularity::H1.as_str()) {
            Some(CandlestickGranularity::H1)
        } else if str_eq(name, CandlestickGranularity::H2.as_str()) {
            Some(CandlestickGranularity::H2)
        } else if str_eq(name, CandlestickGranularity::H3.as_str()) {
            Some(CandlestickGranularity::H3)
        } else if str_eq(name, CandlestickGranularity::H4.as_str()) {
            Some(CandlestickGranularity::H4)
        } else if str_eq(name, CandlestickGranularity::H6.as_str()) {
            Some(CandlestickGranularity::H6)
        } else if str_eq(name, CandlestickGranularity::H8.as_str()) {
            Some(CandlestickGranularity::H8)
        } else if str_eq(name, CandlestickGranularity::H12.as_str()) {
            Some(CandlestickGranularity::H12)
        } else if str_eq(name, CandlestickGranularity::D.as_str()) {
            Some(CandlestickGranularity::D)
        } else if str_eq(name, CandlestickGranularity::W.as_str()) {
            Some(CandlestickGranularity::W)
        } else if str_eq(name, CandlestickGranularity::M.as_str()) {
            Some(CandlestickGranularity::M)
        } else {
            None
        }
    }
}

impl core::str::FromStr for CandlestickGranularity {
    type Err = ();

    fn from_str(name: &str) -> (r: Result<Self, ()>)
        ensures
            match r {
                Ok(v) => v.wire_name() == name@,
                Err(_) => forall|v: Self| v.wire_name() != name@,
            },
    {
        match CandlestickGranularity::from_name(name) {
            Some(v) => Ok(v),
            None => Err(()),
        }
    }
}

impl WeeklyAlignment {
    /// The value whose OANDA name is `name`, if any.
    pub fn from_name(name: &str) -> (r: Option<Self>)
        ensures
            match r {
                Some(v) => v.wire_name() == name@,
                None => forall|v: Self| v.wire_name() != name@,
            },
    {
        if str_eq(name, WeeklyAlignment::Monday.as_str()) {
            Some(WeeklyAlignment::Monday)
        } else if str_eq(name, WeeklyAlignment::Tuesday.as_str()) {
            Some(WeeklyAlignment::Tuesday)
        } else if str_eq(name, WeeklyAlignment::Wednesday.as_str()) {
            Some(WeeklyAlignment::Wednesday)
        } else if str_eq(name, WeeklyAlignment::Thursday.as_str()) {
            Some(WeeklyAlignment::Thursday)
        } else if str_eq(name, WeeklyAlignment::Friday.as_str()) {
            Some(WeeklyAlignment::Friday)
        } else if str_eq(name, WeeklyAlignment::Saturday.as_str()) {
            Some(WeeklyAlignment::Saturday)
        } else if str_eq(name, WeeklyAlignment::Sunday.as_str()) {
            Some(WeeklyAlignment::Sunday)
        } else {
            None
        }
    }
}

impl core::str::FromStr for WeeklyAlignment {
    type Err = ();

    fn from_str(name: &str) -> (r: Result<Self, ()>)
        ensures
            match r {
                Ok(v) => v.wire_name() == name@,
                Err(_) => forall|v: Self| v.wire_name() != name@,
            },
    {
        match WeeklyAlignment::from_name(name) {
            Some(v) => Ok(v),
            None => Err(()),
        }
    }
}

} // verus!
