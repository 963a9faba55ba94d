//! Primitive values shared by every part of the API: decimal strings,
//! currencies, timestamps and a few small records.
use vstd::prelude::*;

verus! {

/// A decimal number serialised as a string (e.g. `"1.23456"`).
///
/// OANDA encodes all numeric values this way to avoid floating-point precision loss.
pub type DecimalNumber = String;

/// An ISO 4217 currency code (e.g. `"USD"`, `"JPY"`, `"EUR"`).
pub type Currency = String;

/// A JSON document kept as its text, for values whose shape OANDA does not fix.
pub type RawJson = String;

/// Whether chrono can represent the UTC instant `secs` seconds and `nanos`
/// nanoseconds after the Unix epoch, as `DateTime::<Utc>::from_timestamp`
/// decides: the day falls within chrono's dates (the years -262143 to
/// 262142, day numbers -95746129 to 95745399 counted from 1 January of the
/// year 1, which is day 1), and `nanos` is below 10^9, or below 2·10^9 in
/// the last second of a minute (a leap second).
pub open spec fn chrono_represents(secs: i64, nanos: u32) -> bool {
    let day = secs as int / 86400 + 719163;
    let second = secs as int % 86400;
    &&& -95746129 <= day <= 95745399
    &&& (nanos < 1_000_000_000 || (nanos < 2_000_000_000 && second % 60 == 59))
}

/// The RFC 3339 text that chrono writes for that instant (`DateTime::to_rfc3339`).
pub uninterp spec fn chrono_rfc3339(secs: i64, nanos: u32) -> Seq<char>;

/// Calls `chrono::DateTime::<Utc>::from_timestamp` and reports whether it
/// gave an instant; the result is `chrono_represents` of the arguments.
#[verifier::external_body]
fn chrono_accepts(secs: i64, nanos: u32) -> (ok: bool)
    ensures
        ok == chrono_represents(secs, nanos),
{
    chrono::DateTime::<chrono::Utc>::from_timestamp(secs, nanos).is_some()
}

/// Calls `chrono::DateTime::<Utc>::from_timestamp` and then `to_rfc3339` on
/// the instant; the text is `chrono_rfc3339` of the arguments.
#[verifier::external_body]
fn chrono_to_rfc3339(secs: i64, nanos: u32) -> (text: String)
    requires
        chrono_represents(secs, nanos),
    ensures
        text@ == chrono_rfc3339(secs, nanos),
{
    match chrono::DateTime::<chrono::Utc>::from_timestamp(secs, nanos) {
        Some(instant) => instant.to_rfc3339(),
        None => String::new(),
    }
}

/// The text chrono's `Display` writes for the instant `secs`, `nanos` seen
/// at the UTC offset of `offset` seconds (`DateTime<FixedOffset>`): the
/// local date and time, a space, and the offset.
pub uninterp spec fn chrono_offset_display(secs: i64, nanos: u32, offset: i32) -> Seq<char>;

/// Calls `chrono::DateTime::<Utc>::from_timestamp`, converts the instant to
/// the machine's local time zone and reads its offset with
/// `offset().local_minus_utc()`. The offset depends on the machine's time
/// zone, so only the range that every `FixedOffset` lies in is promised.
#[verifier::external_body]
fn chrono_local_offset(secs: i64, nanos: u32) -> (offset: i32)
    requires
        chrono_represents(secs, nanos),
    ensures
        -86400 < offset < 86400,
{
    match chrono::DateTime::<chrono::Utc>::from_timestamp(secs, nanos) {
        Some(instant) => instant.with_timezone(&chrono::Local).offset().local_minus_utc(),
        None => 0,
    }
}

/// Calls `chrono::FixedOffset::east_opt(offset)`, then
/// `DateTime::<Utc>::from_timestamp` and `with_timezone` on that offset,
/// and formats the result with `Display`; the text is
/// `chrono_offset_display` of the arguments.
#[verifier::external_body]
fn chrono_display_at_offset(secs: i64, nanos: u32, offset: i32) -> (text: String)
    requires
        chrono_represents(secs, nanos),
        -86400 < offset < 86400,
    ensures
        text@ == chrono_offset_display(secs, nanos, offset),
{
    match (
        chrono::FixedOffset::east_opt(offset),
        chrono::DateTime::<chrono::Utc>::from_timestamp(secs, nanos),
    ) {
        (Some(zone), Some(instant)) => instant.with_timezone(&zone).to_string(),
        _ => String::new(),
    }
}

/// An instant: whole seconds since the Unix epoch (UTC) and the nanoseconds
/// past them. Every `Timestamp` is one that chrono can represent.
#[derive(Debug, Clone, Copy, PartialEq, Eq)]
pub struct Timestamp {
    secs: i64,
    nanos: u32,
}

impl Timestamp {
    #[verifier::type_invariant]
    spec fn representable(self) -> bool {
        chrono_represents(self.secs, self.nanos)
    }

    /// Seconds since the Unix epoch.
    pub closed spec fn spec_secs(self) -> i64 {
        self.secs
    }

    /// Nanoseconds past those seconds.
    pub closed spec fn spec_nanos(self) -> u32 {
        self.nanos
    }

    /// The instant `secs` seconds and `nanos` nanoseconds after the Unix
    /// epoch, or `None` when chrono cannot represent it.
    pub fn new(secs: i64, nanos: u32) -> (t: Option<Timestamp>)
        ensures
            t is Some <==> chrono_represents(secs, nanos),
            t matches Some(t) ==> t.spec_secs() == secs && t.spec_nanos() == nanos,
    {
        if chrono_accepts(secs, nanos) {
            Some(Timestamp { secs, nanos })
        } else {
            None
        }
    }

    /// The RFC 3339 text of the instant.
    pub open spec fn rfc3339_text(self) -> Seq<char> {
        chrono_rfc3339(self.spec_secs(), self.spec_nanos())
    }

    /// Seconds since the Unix epoch.
    pub fn secs(&self) -> (s: i64)
        ensures
            s == self.spec_secs(),
    {
        self.secs
    }

    /// Nanoseconds past [`Self::secs`].
    pub fn nanos(&self) -> (n: u32)
        ensures
            n == self.spec_nanos(),
    {
        self.nanos
    }

    /// The RFC 3339 text of the instant, as chrono writes it.
    pub fn to_rfc3339(&self) -> (text: String)
        ensures
            text@ == self.rfc3339_text(),
    {
        proof {
            use_type_invariant(self);
        }
        chrono_to_rfc3339(self.secs, self.nanos)
    }

    /// The instant in the machine's local time zone, formatted as chrono's
    /// `Display` writes a `DateTime<Local>`: the instant shown at the UTC
    /// offset that the machine's time zone has at that instant. Which
    /// offset that is depends on the machine.
    pub(crate) fn local_display(&self) -> (text: String)
        ensures
            displays_at_some_offset(*self, text@),
    {
        proof {
            use_type_invariant(self);
        }
        let offset = chrono_local_offset(self.secs, self.nanos);
        let text = chrono_display_at_offset(self.secs, self.nanos, offset);
        proof {
            assert(-86400 < offset < 86400 && text@ == chrono_offset_display(
                self.spec_secs(),
                self.spec_nanos(),
                offset,
            ));
        }
        text
    }
}

/// Whether a position or trade is on the buy (long) or sell (short) side.
#[derive(Debug, Clone, Copy, PartialEq, Eq, Structural)]
pub enum Direction {
    /// The buy side — the account holds units expecting the price to rise.
    Long,
    /// The sell side — the account holds units expecting the price to fall.
    Short,
}

/// A user-defined label attached to a trade or order for categorisation.
#[derive(Debug)]
pub struct Tag {
    /// Category of the tag (e.g. `"ORDER"`, `"TRADE"`).
    pub tag_type: String,
    /// Human-readable name of the tag.
    pub name: String,
}

/// A multiplier used to convert an instrument's quote or base currency P&L into
/// the account's home currency.
#[derive(Debug)]
pub struct ConversionFactor {
    /// The multiplicative conversion rate.
    pub factor: DecimalNumber,
}

/// The set of conversion factors needed to convert unrealised P&L for an
/// open position into the account's home currency.
///
/// Returned as part of dynamic account-state responses. Four factors cover the
/// four cases: gain/loss × quote/base currency.
#[derive(Debug)]
pub struct HomeConversionFactors {
    /// Factor for converting a quote-currency gain to home currency.
    pub gain_quote_home: ConversionFactor,
    /// Factor for converting a quote-currency loss to home currency.
    pub loss_quote_home: ConversionFactor,
    /// Factor for converting a base-currency gain to home currency.
    pub gain_base_home: ConversionFactor,
    /// Factor for converting a base-currency loss to home currency.
    pub loss_base_home: ConversionFactor,
}


/// The instant that chrono reads from `text` as an RFC 3339 date and time
/// (`text.parse::<DateTime<FixedOffset>>()`), as seconds since the Unix
/// epoch and nanoseconds past them; `None` when chrono refuses the text.
pub uninterp spec fn chrono_parsed(text: Seq<char>) -> Option<(i64, u32)>;

/// Calls `str::parse::<chrono::DateTime<FixedOffset>>` and reads the
/// instant with `timestamp` and `timestamp_subsec_nanos`; the result is
/// `chrono_parsed` of the text.
#[verifier::external_body]
fn parse_rfc3339(text: &str) -> (r: Option<(i64, u32)>)
    ensures
        r == chrono_parsed(text@),
{
    match text.parse::<chrono::DateTime<chrono::FixedOffset>>() {
        Ok(instant) => Some((instant.timestamp(), instant.timestamp_subsec_nanos())),
        Err(_) => None,
    }
}

/// What an optional OANDA datetime field holds, given its text: the
/// instant of an RFC 3339 text, `None` for `"0"` (OANDA's "no datetime"),
/// and an error otherwise.
pub open spec fn optional_datetime_outcome(text: Seq<char>) -> Result<Option<(i64, u32)>, ()> {
    match chrono_parsed(text) {
        Some((secs, nanos)) => if chrono_represents(secs, nanos) {
            Ok(Some((secs, nanos)))
        } else {
            Err(())
        },
        None => if text == "0"@ {
            Ok(None)
        } else {
            Err(())
        },
    }
}

/// Reads an optional OANDA datetime field from its text.
///
/// OANDA represents "no datetime" as the string `"0"` rather than JSON
/// `null`: `"0"` gives `None` and a valid RFC 3339 timestamp gives `Some`;
/// any other text is refused with the message `unexpected datetime`.
pub fn deserialize_datetime(text: &str) -> (r: Result<Option<Timestamp>, String>)
    ensures
        match optional_datetime_outcome(text@) {
            Ok(Some((secs, nanos))) => r matches Ok(Some(t)) && t.spec_secs() == secs
                && t.spec_nanos() == nanos,
            Ok(None) => r matches Ok(None),
            Err(_) => r matches Err(m) && m@ == "unexpected datetime"@,
        },
{
    match parse_rfc3339(text) {
        Some((secs, nanos)) => match Timestamp::new(secs, nanos) {
            Some(t) => Ok(Some(t)),
            None => Err(String::from_str("unexpected datetime")),
        },
        None => {
            if crate::text::str_eq(text, "0") {
                Ok(None)
            } else {
                Err(String::from_str("unexpected datetime"))
            }
        },
    }
}


/// Whether `text` is what chrono's `Display` writes for the instant `t`
/// seen at some UTC offset (strictly within a day), as a `DateTime<Local>`
/// is written on a machine whose time zone has that offset at `t`.
pub open spec fn displays_at_some_offset(t: Timestamp, text: Seq<char>) -> bool {
    exists|offset: i32|
        -86400 < offset < 86400 && text == chrono_offset_display(
            t.spec_secs(),
            t.spec_nanos(),
            offset,
        )
}

/// Whether `text` is the local-time text of the optional instant `t`:
/// absent when `t` is, and otherwise its display at some UTC offset.
pub open spec fn local_text_of(t: Option<Timestamp>, text: Option<Seq<char>>) -> bool {
    match t {
        Some(instant) => match text {
            Some(s) => displays_at_some_offset(instant, s),
            None => false,
        },
        None => text is None,
    }
}

} // verus!
