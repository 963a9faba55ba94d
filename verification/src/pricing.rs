//! Prices, order-book buckets and the pricing stream items.
use crate::instrument::InstrumentName;
use crate::errors::APIError;
use crate::http::{invalid_request, invalid_request_message};
use crate::primitives::{Currency, DecimalNumber, Timestamp};
use crate::text::{decimal, digit_char, join, join_with, trim, trim_ws, views};
use crate::endpoint::{checked_outcome, endpoint_matches, path1, Endpoint, Method, RejectRule};
use crate::http::{account_url_outcome, Connection};
use vstd::prelude::*;

verus! {

/// A price expressed as a decimal string (e.g. `"1.08523"`).
///
/// OANDA represents prices as strings to avoid floating-point precision loss.
pub type PriceValue = String;

/// A combination of price component flags encoded as a string.
///
/// Each character selects a price stream to include in a response:
/// - `"B"` — bid prices
/// - `"A"` — ask prices
/// - `"M"` — mid prices
///
/// Multiple components can be combined (e.g. `"BA"` for bid and ask).
pub type PricingComponent = String;

/// A compact specification for a candlestick series, encoded as
/// `"InstrumentName:CandlestickGranularity:PricingComponent"`
/// (e.g. `"EUR_USD:H1:MBA"`).
pub type CandleSpecification = String;

/// Indicates whether a price is currently actionable by clients.
#[derive(Debug, Clone, Copy, PartialEq, Eq, Structural)]
pub enum PriceStatus {
    /// The price is valid and the instrument can be traded at this price.
    Tradeable,
    /// The price is valid but the instrument cannot currently be traded
    /// (e.g. outside market hours).
    NonTradeable,
    /// The price is invalid and should not be used.
    Invalid,
}

/// A single price level in an order book, pairing a price with the available
/// liquidity at that level.
#[derive(Debug)]
pub struct PriceBucket {
    /// The price at this level.
    pub price: PriceValue,
    /// The number of units available at this price level.
    pub liquidity: i64,
}

/// Factors for converting P&L expressed in the instrument's quote currency
/// into the account's home currency.
///
/// **Deprecated** by OANDA — use [`HomeConversions`] instead.
#[derive(Debug)]
pub struct QuoteHomeConversionFactors {
    /// Conversion factor to apply when P&L is positive (gain).
    pub positive_units: DecimalNumber,
    /// Conversion factor to apply when P&L is negative (loss).
    pub negative_units: DecimalNumber,
}

/// The number of units available to trade on each side under a specific
/// position-fill mode.
///
/// **Deprecated** by OANDA.
#[derive(Debug)]
pub struct UnitsAvailableDetails {
    /// Maximum units available to open or add to a long position.
    pub long: DecimalNumber,
    /// Maximum units available to open or add to a short position.
    pub short: DecimalNumber,
}

/// Units available to trade broken down by [`OrderPositionFill`](crate::order::OrderPositionFill)
/// mode.
///
/// **Deprecated** by OANDA.
#[derive(Debug)]
pub struct UnitsAvailable {
    /// Units available under the `Default` position-fill mode.
    pub default: UnitsAvailableDetails,
    /// Units available under the `OpenOnly` position-fill mode.
    pub open_only: UnitsAvailableDetails,
    /// Units available under the `ReduceFirst` position-fill mode.
    pub reduce_first: UnitsAvailableDetails,
    /// Units available under the `ReduceOnly` position-fill mode.
    pub reduce_only: UnitsAvailableDetails,
}

/// Conversion factors for converting a position's value (denominated in a
/// foreign currency) into the account's home currency.
///
/// Returned alongside prices when `include_home_conversions` is requested.
#[derive(Debug)]
pub struct HomeConversions {
    /// The foreign currency these conversion factors apply to.
    pub currency: Currency,
    /// Factor to multiply a gain (positive P&L) in `currency` by to obtain
    /// the equivalent amount in home currency.
    pub account_gain: DecimalNumber,
    /// Factor to multiply a loss (negative P&L) in `currency` by to obtain
    /// the equivalent amount in home currency.
    pub account_loss: DecimalNumber,
    /// Factor to convert a position's notional value in `currency` into home
    /// currency (used for margin calculations).
    pub position_value: DecimalNumber,
}

/// A real-time bid/ask price snapshot for a single instrument, as seen by
/// the authenticated client.
///
/// Returned by `GET /v3/accounts/{accountID}/pricing` and streamed by the
/// pricing stream endpoint.
#[derive(Debug)]
pub struct ClientPrice {
    /// The instrument this price is for (e.g. `"EUR_USD"`).
    pub instrument: Option<InstrumentName>,
    /// The timestamp at which this price was generated by OANDA.
    pub timestamp: Option<Timestamp>,
    /// The tradeable status of the instrument at the time of this price.
    /// `None` if the status is unknown.
    pub status: Option<PriceStatus>,
    /// `true` if the instrument can currently be traded at this price.
    pub tradeable: Option<bool>,
    /// The bid-side order book levels, ordered from best (highest) to worst.
    pub bids: Vec<PriceBucket>,
    /// The ask-side order book levels, ordered from best (lowest) to worst.
    pub asks: Vec<PriceBucket>,
    /// The bid price used when closing positions or triggering stop-loss
    /// orders during margin closeout. May differ from the best bid.
    pub closeout_bid: PriceValue,
    /// The ask price used when closing positions or triggering stop-loss
    /// orders during margin closeout. May differ from the best ask.
    pub closeout_ask: PriceValue,
    /// Deprecated conversion factors for quote-to-home-currency P&L.
    /// Use the `home_conversions` field in [`PricesResponse`] instead.
    pub quote_home_conversion_factors: Option<QuoteHomeConversionFactors>,
    /// Deprecated breakdown of units available to trade by position-fill mode.
    pub units_available: Option<UnitsAvailable>,
}

/// A keepalive message sent periodically over the pricing stream to confirm
/// the connection is still active.
#[derive(Debug)]
pub struct PricingHeartbeat {
    /// The server timestamp at which the heartbeat was generated.
    pub time: Timestamp,
}

/// A single item in the pricing stream, which is either a live price update
/// or a heartbeat.
///
/// Deserialised from newline-delimited JSON using the `"type"` field as a tag.
#[derive(Debug)]
pub enum PricingStreamItem {
    /// A live price update for an instrument.
    ///
    /// Boxed because `ClientPrice` is much larger than a heartbeat.
    Price(Box<ClientPrice>),
    /// A periodic keepalive message confirming the stream is active.
    Heartbeat(PricingHeartbeat),
}

/// Response body for `GET /v3/accounts/{accountID}/pricing`.
#[derive(Debug)]
pub struct PricesResponse {
    /// The current prices for each requested instrument.
    pub prices: Vec<ClientPrice>,
    /// Home-currency conversion factors for each foreign currency involved in
    /// the requested instruments. `None` if not requested.
    pub home_conversions: Option<Vec<HomeConversions>>,
    /// The server timestamp at which the prices were generated. `None` when
    /// not included in the response.
    pub time: Option<Timestamp>,
}


/// The message of a refused instrument list.
pub open spec fn instruments_message() -> Seq<char> {
    "instruments must hold at least one nonblank instrument name"@
}

/// An instrument list is acceptable unless it is blank: it holds at least
/// one name that is not blank.
pub open spec fn instruments_acceptable(names: Seq<Seq<char>>) -> bool {
    exists|i: int| 0 <= i < names.len() && #[trigger] trim_ws(names[i]).len() > 0
}

/// The names with surrounding whitespace removed.
pub open spec fn trimmed_names(names: Seq<Seq<char>>) -> Seq<Seq<char>> {
    Seq::new(names.len(), |i: int| trim_ws(names[i]))
}

/// The `instruments` query value of an acceptable list: the trimmed names
/// joined with commas.
pub open spec fn instruments_value(names: Seq<Seq<char>>) -> Seq<char> {
    join_with(trimmed_names(names), ","@)
}

/// The names, each trimmed of surrounding whitespace, joined with commas.
pub fn join_trimmed(names: &Vec<String>) -> (v: String)
    ensures
        v@ == instruments_value(views(names@)),
{
    let ghost all = views(names@);
    let mut trimmed: Vec<String> = Vec::new();
    let mut i: usize = 0;
    while i < names.len()
        invariant
            i <= names.len(),
            all == views(names@),
            trimmed@.len() == i,
            forall|j: int| 0 <= j < i ==> (#[trigger] trimmed@[j])@ == trim_ws(all[j]),
        decreases names.len() - i,
    {
        trimmed.push(trim(names[i].as_str()));
        i = i + 1;
    }
    proof {
        assert(views(trimmed@) =~= trimmed_names(all));
    }
    join(&trimmed, ",")
}

/// The `instruments` query value of `names`, or an invalid request when
/// the list is blank: empty, or made of blank names only.
pub fn instruments_param(names: &Vec<String>) -> (r: Result<String, APIError>)
    ensures
        r is Ok <==> instruments_acceptable(views(names@)),
        r matches Ok(v) ==> v@ == instruments_value(views(names@)),
        r matches Err(e) ==> invalid_request_message(e) == Some(instruments_message()),
{
    let ghost all = views(names@);
    let mut i: usize = 0;
    while i < names.len()
        invariant
            i <= names.len(),
            all == views(names@),
            forall|j: int| 0 <= j < i ==> #[trigger] trim_ws(all[j]).len() == 0,
        decreases names.len() - i,
    {
        if trim(names[i].as_str()).as_str().unicode_len() > 0 {
            proof {
                assert(trim_ws(all[i as int]).len() > 0);
            }
            return Ok(join_trimmed(names));
        }
        i = i + 1;
    }
    Err(invalid_request("instruments must hold at least one nonblank instrument name"))
}

/// Provides access to the OANDA Pricing endpoints
/// (`/v3/accounts/{id}/pricing/...`).
pub struct PricingService<'a> {
    connection: &'a Connection,
}

impl<'a> PricingService<'a> {
    /// Creates a new `PricingService` bound to the given connection.
    pub fn new(connection: &'a Connection) -> (s: Self)
        ensures
            s.connection() == connection,
    {
        PricingService { connection }
    }

    /// The connection the service is bound to.
    pub closed spec fn connection(&self) -> &'a Connection {
        self.connection
    }

    /// Fetches the current prices of `instruments`: `GET .../pricing` with
    /// the trimmed names joined with commas as `instruments`. A blank list
    /// (empty, or of blank names only) is refused with
    /// [`APIError::InvalidRequest`] once the account is known.
    pub fn get(&self, instruments: &Vec<InstrumentName>) -> (r: Result<Endpoint, APIError>)
        ensures
            endpoint_matches(
                r,
                self.connection().base_url,
                checked_outcome(
                    account_url_outcome(
                        self.connection().base_url,
                        self.connection().account_id.deep_view(),
                        seq!["pricing"@],
                    ),
                    instruments_acceptable(views(instruments@)),
                    instruments_message(),
                ),
                seq![("instruments"@, instruments_value(views(instruments@)))],
                Method::Get,
                200,
                RejectRule::NoReject,
            ),
    {
        match self.connection.account_url(&path1("pricing")) {
            Ok(u) => {
                let value = match instruments_param(instruments) {
                    Ok(v) => v,
                    Err(e) => {
                        return Err(e);
                    },
                };
                let mut url = u;
                let ghost before = url@.pairs;
                url.append_pair("instruments", value.as_str());
                proof {
                    assert(url@.pairs =~= before + seq![("instruments"@, value@)]);
                }
                Ok(Endpoint { method: Method::Get, url, success: 200, reject: RejectRule::NoReject })
            },
            Err(e) => Err(e),
        }
    }
}


/// Whether `c` is an ASCII decimal digit.
pub open spec fn is_digit(c: char) -> bool {
    '0' <= c <= '9'
}

/// The value of a string of decimal digits, most significant first.
pub open spec fn digits_value(s: Seq<char>) -> int
    decreases s.len(),
{
    if s.len() == 0 {
        0
    } else {
        digits_value(s.drop_last()) * 10 + (s.last() as int - '0' as int)
    }
}

/// The digits of a number: `s` without its sign, if it has one.
pub open spec fn unsigned_part(s: Seq<char>) -> Seq<char> {
    if s.len() > 0 && (s[0] == '-' || s[0] == '+') {
        s.drop_first()
    } else {
        s
    }
}

/// The `i64` written in `s` as `str::parse::<i64>` reads it: an optional
/// `+` or `-`, then one or more decimal digits, with a value in range;
/// `None` for any other text.
pub open spec fn decimal_i64(s: Seq<char>) -> Option<i64> {
    let body = unsigned_part(s);
    let magnitude = digits_value(body);
    let value = if s.len() > 0 && s[0] == '-' {
        -magnitude
    } else {
        magnitude
    };
    if body.len() == 0 || exists|i: int| 0 <= i < body.len() && !is_digit(#[trigger] body[i]) {
        None
    } else if i64::MIN <= value <= i64::MAX {
        Some(value as i64)
    } else {
        None
    }
}

proof fn lemma_digits_nonneg(s: Seq<char>)
    requires
        forall|i: int| 0 <= i < s.len() ==> is_digit(#[trigger] s[i]),
    ensures
        digits_value(s) >= 0,
    decreases s.len(),
{
    if s.len() > 0 {
        let t = s.drop_last();
        assert forall|i: int| 0 <= i < t.len() implies is_digit(#[trigger] t[i]) by {
            assert(t[i] == s[i]);
        }
        lemma_digits_nonneg(t);
        assert(is_digit(s[s.len() - 1]));
    }
}

proof fn lemma_digits_prefix_monotone(s: Seq<char>, j: int, k: int)
    requires
        0 <= j <= k <= s.len(),
        forall|i: int| 0 <= i < s.len() ==> is_digit(#[trigger] s[i]),
    ensures
        digits_value(s.take(j)) <= digits_value(s.take(k)),
    decreases k - j,
{
    if j < k {
        lemma_digits_prefix_monotone(s, j, k - 1);
        let t = s.take(k - 1);
        assert(s.take(k).drop_last() =~= t);
        assert(s.take(k).last() == s[k - 1]);
        assert(is_digit(s[k - 1]));
        assert forall|i: int| 0 <= i < t.len() implies is_digit(#[trigger] t[i]) by {
            assert(t[i] == s[i]);
        }
        lemma_digits_nonneg(t);
    }
}

/// The units available at a price level, from the text OANDA sends: the
/// integer it holds, or `None` when the text is not an `i64`.
pub fn parse_liquidity(text: &str) -> (r: Option<i64>)
    ensures
        r == decimal_i64(text@),
{
    let n = text.unicode_len();
    let ghost s = text@;
    let negative = n > 0 && text.get_char(0) == '-';
    let start: usize = if n > 0 && (text.get_char(0) == '-' || text.get_char(0) == '+') {
        1
    } else {
        0
    };
    let ghost body = unsigned_part(s);
    proof {
        assert(body =~= s.subrange(start as int, n as int));
    }
    if start >= n {
        return None;
    }
    let limit: u128 = if negative {
        9223372036854775808
    } else {
        9223372036854775807
    };
    let mut acc: u128 = 0;
    let mut i: usize = start;
    while i < n
        invariant
            start <= i <= n,
            n == s.len(),
            s == text@,
            body == s.subrange(start as int, n as int),
            body == unsigned_part(s),
            body.len() > 0,
            forall|j: int| 0 <= j < i - start ==> is_digit(#[trigger] body[j]),
            acc == digits_value(body.take(i - start)),
            acc <= limit,
            limit == (if negative {
                9223372036854775808u128
            } else {
                9223372036854775807u128
            }),
            negative == (s.len() > 0 && s[0] == '-'),
        decreases n - i,
    {
        let c = text.get_char(i);
        proof {
            assert(body[i - start] == c);
        }
        if !('0' <= c && c <= '9') {
            return None;
        }
        let d = (c as u32 - '0' as u32) as u128;
        proof {
            assert(body.take(i - start + 1).drop_last() =~= body.take(i - start));
            assert(body.take(i - start + 1).last() == c);
        }
        let next = acc * 10 + d;
        if next > limit {
            proof {
                let k = i - start + 1;
                assert(digits_value(body.take(k)) == next);
                if forall|j: int| 0 <= j < body.len() ==> is_digit(#[trigger] body[j]) {
                    lemma_digits_prefix_monotone(body, k, body.len() as int);
                    assert(body.take(body.len() as int) =~= body);
                }
            }
            return None;
        }
        acc = next;
        i = i + 1;
    }
    proof {
        assert(body.take(body.len() as int) =~= body);
        assert(i - start == body.len());
    }
    if negative {
        Some((0i128 - acc as i128) as i64)
    } else {
        Some(acc as i64)
    }
}


proof fn lemma_decimal_is_digits(n: nat)
    ensures
        decimal(n).len() > 0,
        forall|i: int| 0 <= i < decimal(n).len() ==> is_digit(#[trigger] decimal(n)[i]),
        digits_value(decimal(n)) == n,
    decreases n,
{
    if n < 10 {
        let c = digit_char(n);
        assert(c as int == n + 48);
        assert('0' as int == 48);
        assert(decimal(n).drop_last() =~= Seq::<char>::empty());
        assert(decimal(n).last() == c);
        assert(digits_value(Seq::<char>::empty()) == 0);
    } else {
        lemma_decimal_is_digits(n / 10);
        let d = n % 10;
        let c = digit_char(d);
        assert(c as int == d + 48);
        let p = decimal(n / 10);
        assert(decimal(n).drop_last() =~= p);
        assert forall|i: int| 0 <= i < decimal(n).len() implies is_digit(#[trigger] decimal(n)[i]) by {
            if i < p.len() {
                assert(decimal(n)[i] == p[i]);
            }
        }
        assert(decimal(n).last() == c);
        assert('0' as int == 48);
        assert((n / 10) * 10 + n % 10 == n) by (nonlinear_arith);
    }
}

/// The text `i64::to_string` writes: a `-` before the digits of a
/// negative number.
pub open spec fn signed_decimal(v: int) -> Seq<char> {
    if v < 0 {
        seq!['-'] + decimal((-v) as nat)
    } else {
        decimal(v as nat)
    }
}

/// Reading liquidity undoes writing it: the text of every `i64` reads
/// back as that number.
pub proof fn lemma_liquidity_reads_its_text(v: i64)
    ensures
        decimal_i64(signed_decimal(v as int)) == Some(v),
{
    let s = signed_decimal(v as int);
    if v < 0 {
        let m = (-(v as int)) as nat;
        lemma_decimal_is_digits(m);
        assert(s[0] == '-');
        assert(unsigned_part(s) =~= decimal(m));
    } else {
        lemma_decimal_is_digits(v as nat);
        assert(is_digit(s[0]));
        assert(unsigned_part(s) == s);
    }
}

} // verus!
