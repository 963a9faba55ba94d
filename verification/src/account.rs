//! Accounts: their full and summarised state, changes since a transaction,
//! configuration requests and the responses of the account endpoints.
use crate::instrument::Instrument;
use crate::order::model::{DynamicOrderState, Order};
use crate::position::{CalculatedPositionState, Position};
use crate::primitives::{Currency, DecimalNumber, Timestamp};
use crate::trade::{CalculatedTradeState, TradeSummary};
use crate::transaction::event::{
    ClientConfigureRejectTransaction, ClientConfigureTransaction, Transaction,
};
use crate::transaction::types::{AccountUnits, TransactionID};
use crate::endpoint::{endpoint_at, endpoint_matches, path1, path2, Endpoint, Method, RejectRule};
use crate::errors::APIError;
use crate::http::{account_url, account_url_outcome, api_url, api_url_outcome, Connection};
use crate::pricing::{instruments_value, join_trimmed};
use crate::text::views;
use crate::url::optional_pair;
use vstd::prelude::*;

verus! {

/// A unique identifier for an OANDA account (e.g. `"101-001-1234567-001"`).
pub type AccountID = String;

/// Full representation of an OANDA account, including all open trades,
/// positions, and pending orders.
///
/// Returned by the `GET /v3/accounts/{accountID}` endpoint. Fields that are
/// not always populated by OANDA are modelled as `Option`.
#[derive(Debug)]
pub struct Account {
    /// The account's unique identifier.
    pub id: AccountID,
    /// An optional human-readable label for the account.
    pub alias: Option<String>,
    /// The home currency of the account (e.g. `"USD"`).
    pub currency: Currency,
    /// The numeric ID of the user who created the account.
    pub created_by_user_id: i64,
    /// Timestamp at which the account was created.
    pub created_time: Timestamp,
    /// GSLO parameters governing mutability when markets are open vs halted.
    pub guaranteed_stop_loss_order_parameters: Option<GuaranteedStopLossOrderParameters>,
    /// Whether GSLOs are disabled, allowed, or required on this account.
    pub guaranteed_stop_loss_order_mode: Option<GuaranteedStopLossOrderMode>,
    /// The mutability setting for GSLOs on this account (deprecated field).
    pub guaranteed_stop_loss_order_mutability: Option<GuaranteedStopLossOrderMutability>,
    /// Timestamp of the last P&L reset, if one has occurred.
    pub resettable_pl_time: Option<Timestamp>,
    /// Margin rate expressed as a decimal (e.g. `0.05` for 5 % margin / 20:1 leverage).
    pub margin_rate: Option<DecimalNumber>,
    /// Number of currently open trades.
    pub open_trade_count: Option<i32>,
    /// Number of currently open positions.
    pub open_position_count: Option<i32>,
    /// Number of pending orders.
    pub pending_order_count: Option<i32>,
    /// Whether hedging (simultaneous long and short positions) is enabled.
    pub hedging_enabled: Option<bool>,
    /// Unrealized profit/loss across all open trades, in home currency units.
    pub unrealized_pl: Option<AccountUnits>,
    /// Net asset value: `balance + unrealizedPL`.
    pub nav: Option<AccountUnits>,
    /// Margin currently consumed by open positions.
    pub margin_used: Option<AccountUnits>,
    /// Margin available to open new positions.
    pub margin_available: Option<AccountUnits>,
    /// The value of all open positions expressed in home currency.
    pub position_value: Option<AccountUnits>,
    /// Unrealized P&L used in the margin closeout calculation.
    pub margin_closeout_unrealized_pl: Option<AccountUnits>,
    /// NAV used in the margin closeout calculation.
    pub margin_closeout_nav: Option<AccountUnits>,
    /// Margin used in the margin closeout calculation.
    pub margin_closeout_margin_used: Option<AccountUnits>,
    /// Ratio of margin closeout margin used to NAV (`marginCloseoutMarginUsed / marginCloseoutNAV`).
    pub margin_closeout_percent: Option<DecimalNumber>,
    /// Value of all open positions in the margin closeout calculation.
    pub margin_closeout_position_value: Option<DecimalNumber>,
    /// Maximum funds that can be withdrawn without margin impact.
    pub withdrawal_limit: Option<AccountUnits>,
    /// Margin used as computed for the margin call trigger.
    pub margin_call_margin_used: Option<AccountUnits>,
    /// Ratio of margin call margin used to NAV.
    pub margin_call_percent: Option<DecimalNumber>,
    /// Current cash balance of the account.
    pub balance: Option<AccountUnits>,
    /// Cumulative realized profit/loss.
    pub pl: Option<AccountUnits>,
    /// Realized P&L since the last reset.
    pub resettable_pl: Option<AccountUnits>,
    /// Cumulative financing paid/received.
    pub financing: Option<AccountUnits>,
    /// Cumulative commission paid.
    pub commission: Option<AccountUnits>,
    /// Cumulative dividend adjustment received.
    pub dividend_adjustment: Option<AccountUnits>,
    /// Cumulative fees paid for guaranteed execution.
    pub guaranteed_execution_fees: Option<AccountUnits>,
    /// Timestamp at which the account entered margin call, if applicable.
    pub margin_call_enter_time: Option<Timestamp>,
    /// Number of times the margin call deadline has been extended.
    pub margin_call_extension_count: Option<i32>,
    /// Timestamp of the most recent margin call deadline extension.
    pub last_margin_call_extension_time: Option<Timestamp>,
    /// ID of the most recent transaction applied to this account.
    pub last_transaction_id: Option<TransactionID>,
    /// All currently open trades.
    pub trades: Option<Vec<TradeSummary>>,
    /// All currently open positions.
    pub positions: Option<Vec<Position>>,
    /// All pending orders.
    pub orders: Option<Vec<Order>>,
}

/// Metadata about an account returned when listing all accounts accessible
/// by the authenticated user (`GET /v3/accounts`).
#[derive(Debug)]
pub struct AccountProperties {
    /// The account's unique identifier.
    pub id: AccountID,
    /// The MT4 account number linked to this account, if any.
    pub mt4_account_id: Option<i32>,
    /// Arbitrary tags associated with the account.
    pub tags: Vec<String>,
}

/// A condensed snapshot of an account's state, omitting the full lists of
/// open trades, positions, and orders.
///
/// Returned by the `GET /v3/accounts/{accountID}/summary` endpoint.
#[derive(Debug)]
pub struct AccountSummary {
    /// The account's unique identifier.
    pub id: AccountID,
    /// An optional human-readable label for the account.
    pub alias: Option<String>,
    /// The home currency of the account (e.g. `"USD"`).
    pub currency: Currency,
    /// The numeric ID of the user who created the account.
    pub created_by_user_id: i64,
    /// Timestamp at which the account was created.
    pub created_time: Timestamp,
    /// GSLO parameters governing mutability when markets are open vs halted.
    pub guaranteed_stop_loss_order_parameters: Option<GuaranteedStopLossOrderParameters>,
    /// Whether GSLOs are disabled, allowed, or required on this account.
    pub guaranteed_stop_loss_order_mode: Option<GuaranteedStopLossOrderMode>,
    /// The mutability setting for GSLOs on this account (deprecated field).
    pub guaranteed_stop_loss_order_mutability: Option<GuaranteedStopLossOrderMutability>,
    /// Timestamp of the last P&L reset, if one has occurred.
    pub resettable_pl_time: Option<Timestamp>,
    /// Margin rate expressed as a decimal (e.g. `0.05` for 5 % margin / 20:1 leverage).
    pub margin_rate: Option<DecimalNumber>,
    /// Number of currently open trades.
    pub open_trade_count: Option<i32>,
    /// Number of currently open positions.
    pub open_position_count: Option<i32>,
    /// Number of pending orders.
    pub pending_order_count: Option<i32>,
    /// Whether hedging (simultaneous long and short positions) is enabled.
    pub hedging_enabled: Option<bool>,
    /// Unrealized profit/loss across all open trades, in home currency units.
    pub unrealized_pl: Option<AccountUnits>,
    /// Net asset value: `balance + unrealizedPL`.
    pub nav: Option<AccountUnits>,
    /// Margin currently consumed by open positions.
    pub margin_used: Option<AccountUnits>,
    /// Margin available to open new positions.
    pub margin_available: Option<AccountUnits>,
    /// The value of all open positions expressed in home currency.
    pub position_value: Option<AccountUnits>,
    /// Unrealized P&L used in the margin closeout calculation.
    pub margin_closeout_unrealized_pl: Option<AccountUnits>,
    /// NAV used in the margin closeout calculation.
    pub margin_closeout_nav: Option<AccountUnits>,
    /// Margin used in the margin closeout calculation.
    pub margin_closeout_margin_used: Option<AccountUnits>,
    /// Ratio of margin closeout margin used to NAV.
    pub margin_closeout_percent: Option<DecimalNumber>,
    /// Value of all open positions in the margin closeout calculation.
    pub margin_closeout_position_value: Option<DecimalNumber>,
    /// Maximum funds that can be withdrawn without margin impact.
    pub withdrawal_limit: Option<AccountUnits>,
    /// Margin used as computed for the margin call trigger.
    pub margin_call_margin_used: Option<AccountUnits>,
    /// Ratio of margin call margin used to NAV.
    pub margin_call_percent: Option<DecimalNumber>,
    /// Current cash balance of the account.
    pub balance: Option<AccountUnits>,
    /// Cumulative realized profit/loss.
    pub pl: Option<AccountUnits>,
    /// Realized P&L since the last reset.
    pub resettable_pl: Option<AccountUnits>,
    /// Cumulative financing paid/received.
    pub financing: Option<AccountUnits>,
    /// Cumulative commission paid.
    pub commission: Option<AccountUnits>,
    /// Cumulative dividend adjustment received.
    pub dividend_adjustment: Option<AccountUnits>,
    /// Cumulative fees paid for guaranteed execution.
    pub guaranteed_execution_fees: Option<AccountUnits>,
    /// Timestamp at which the account entered margin call, if applicable.
    pub margin_call_enter_time: Option<Timestamp>,
    /// Number of times the margin call deadline has been extended.
    pub margin_call_extension_count: Option<i32>,
    /// Timestamp of the most recent margin call deadline extension.
    pub last_margin_call_extension_time: Option<Timestamp>,
    /// ID of the most recent transaction applied to this account.
    pub last_transaction_id: Option<TransactionID>,
}

/// Describes every change applied to an account since a given transaction ID,
/// returned by `GET /v3/accounts/{accountID}/changes`.
#[derive(Debug)]
pub struct AccountChanges {
    /// Orders that were created in the period.
    pub orders_created: Option<Vec<Order>>,
    /// Orders that were cancelled in the period.
    pub orders_cancelled: Option<Vec<Order>>,
    /// Orders that were filled (executed) in the period.
    pub orders_filled: Option<Vec<Order>>,
    /// Orders that were triggered in the period.
    pub orders_triggered: Option<Vec<Order>>,
    /// Trades that were newly opened in the period.
    pub trades_opened: Option<Vec<TradeSummary>>,
    /// Trades that were partially closed (reduced) in the period.
    pub trades_reduced: Option<Vec<TradeSummary>>,
    /// Trades that were fully closed in the period.
    pub trades_closed: Option<Vec<TradeSummary>>,
    /// Positions affected by changes in the period.
    pub positions: Option<Vec<Position>>,
    /// Transactions generated in the period.
    pub transactions: Option<Vec<Transaction>>,
}

/// A polling-optimised snapshot of the dynamic (frequently changing) fields
/// of an account, returned alongside [`AccountChanges`] by the
/// `GET /v3/accounts/{accountID}/changes` endpoint.
///
/// Contains the same financial fields as [`Account`] but omits static
/// identity fields such as `id`, `currency`, and `createdTime`.
#[derive(Debug)]
pub struct AccountChangesState {
    /// Unrealized profit/loss across all open trades.
    pub unrealized_pl: Option<AccountUnits>,
    /// Net asset value: `balance + unrealizedPL`.
    pub nav: Option<AccountUnits>,
    /// Margin currently consumed by open positions.
    pub margin_used: Option<AccountUnits>,
    /// Margin available to open new positions.
    pub margin_available: Option<AccountUnits>,
    /// Value of all open positions in home currency.
    pub position_value: Option<AccountUnits>,
    /// Unrealized P&L used in the margin closeout calculation.
    pub margin_closeout_unrealized_pl: Option<AccountUnits>,
    /// NAV used in the margin closeout calculation.
    pub margin_closeout_nav: Option<AccountUnits>,
    /// Margin used in the margin closeout calculation.
    pub margin_closeout_margin_used: Option<AccountUnits>,
    /// Ratio of margin closeout margin used to NAV.
    pub margin_closeout_percent: Option<DecimalNumber>,
    /// Value of all open positions in the margin closeout calculation.
    pub margin_closeout_position_value: Option<DecimalNumber>,
    /// Maximum funds that can be withdrawn without margin impact.
    pub withdrawal_limit: Option<AccountUnits>,
    /// Margin used as computed for the margin call trigger.
    pub margin_call_margin_used: Option<AccountUnits>,
    /// Ratio of margin call margin used to NAV.
    pub margin_call_percent: Option<DecimalNumber>,
    /// Current cash balance of the account.
    pub balance: Option<AccountUnits>,
    /// Cumulative realized profit/loss.
    pub pl: Option<AccountUnits>,
    /// Realized P&L since the last reset.
    pub resettable_pl: Option<AccountUnits>,
    /// Cumulative financing paid/received.
    pub financing: Option<AccountUnits>,
    /// Cumulative commission paid.
    pub commission: Option<AccountUnits>,
    /// Cumulative dividend adjustment received.
    pub dividend_adjustment: Option<AccountUnits>,
    /// Cumulative fees paid for guaranteed execution.
    pub guaranteed_execution_fees: Option<AccountUnits>,
    /// Timestamp at which the account entered margin call, if applicable.
    pub margin_call_enter_time: Option<Timestamp>,
    /// Number of times the margin call deadline has been extended.
    pub margin_call_extension_count: Option<i32>,
    /// Timestamp of the most recent margin call deadline extension.
    pub last_margin_call_extension_time: Option<Timestamp>,
    /// Dynamic state of each pending order (price-dependent fields).
    pub orders: Option<Vec<DynamicOrderState>>,
    /// Dynamic state of each open trade (unrealized P&L, etc.).
    pub trades: Option<Vec<CalculatedTradeState>>,
    /// Dynamic state of each open position.
    pub positions: Option<Vec<CalculatedPositionState>>,
}

/// Configures mutability rules for Guaranteed Stop Loss Orders, separately
/// for when the market is open versus halted.
#[derive(Debug)]
pub struct GuaranteedStopLossOrderParameters {
    /// Mutability rule that applies while the market is open.
    pub mutability_market_open: GuaranteedStopLossOrderMutability,
    /// Mutability rule that applies while the market is halted.
    pub mutability_market_halted: GuaranteedStopLossOrderMutability,
}

/// Controls whether Guaranteed Stop Loss Orders (GSLOs) are available on an account.
#[derive(Debug, Clone, Copy, PartialEq, Eq, Structural)]
pub enum GuaranteedStopLossOrderMode {
    /// GSLOs are not available for this account.
    Disabled,
    /// GSLOs are available but not required.
    Allowed,
    /// Every trade on this account must have a GSLO attached.
    Required,
}

/// Describes how a Guaranteed Stop Loss Order may be changed after it is created.
#[derive(Debug, Clone, Copy, PartialEq, Eq, Structural)]
pub enum GuaranteedStopLossOrderMutability {
    /// The GSLO cannot be modified once placed.
    Fixed,
    /// The GSLO can be replaced with a new one.
    Replaceable,
    /// The GSLO can be cancelled.
    Cancelable,
    /// Only changes that widen the stop price are permitted.
    PriceWidenOnly,
}

/// Determines how financing (swap/rollover) is applied to open positions.
#[derive(Debug, Clone, Copy, PartialEq, Eq, Structural)]
pub enum AccountFinancingMode {
    /// No financing charges or credits are applied.
    NoFinancing,
    /// Financing is calculated and applied every second.
    SecondBySecond,
    /// Financing is calculated and applied once per day.
    Daily,
}

/// Determines how the margin requirement for multiple positions on the same
/// instrument is aggregated.
#[derive(Debug, Clone, Copy, PartialEq, Eq, Structural)]
pub enum PositionAggregationMode {
    /// Margin is the sum of the absolute values of all position sides.
    AbsoluteSum,
    /// Margin is determined by whichever side (long or short) is larger.
    MaximalSide,
    /// Margin is based on the net (long minus short) position size.
    NetSum,
}

/// Profile information about the OANDA user who owns an account,
/// returned by `GET /v3/users/{userSpecifier}`.
#[derive(Debug)]
pub struct UserAttributes {
    /// OANDA's numeric user identifier.
    pub user_id: i64,
    /// The user's login username.
    pub username: String,
    /// The user's title (e.g. `"Mr"`, `"Ms"`).
    pub title: String,
    /// The user's full name.
    pub name: String,
    /// The user's email address.
    pub email: String,
    /// Abbreviation of the OANDA division the account belongs to (e.g. `"001"`).
    pub division_abbreviation: String,
    /// BCP 47 language tag for the user's preferred language (e.g. `"en"`).
    pub language_abbreviation: String,
    /// The user's home/base currency (e.g. `"USD"`).
    pub home_currency: Currency,
}

/// Request body for `PATCH /v3/accounts/{accountID}/configuration`.
///
/// At least one field must be set; fields left as `None` are not sent and
/// therefore not changed on the server.
#[derive(Debug)]
pub struct ConfigureAccountRequest {
    /// New display name for the account.
    pub alias: Option<String>,
    /// New margin rate expressed as a decimal (e.g. `"0.05"` for 5 % margin / 20:1 leverage).
    pub margin_rate: Option<DecimalNumber>,
}

/// Response body for `GET /v3/accounts`.
#[derive(Debug)]
pub struct ListAccountsResponse {
    /// The list of accounts accessible to the authenticated user.
    pub accounts: Vec<AccountProperties>,
}

/// Response body for `GET /v3/accounts/{accountID}`.
#[derive(Debug)]
pub struct GetAccountDetailsResponse {
    /// The full account state, including all open trades, positions, and orders.
    pub account: Account,
    /// The ID of the most recent transaction on the account.
    pub last_transaction_id: TransactionID,
}

/// Response body for `GET /v3/accounts/{accountID}/summary`.
#[derive(Debug)]
pub struct GetAccountSummaryResponse {
    /// A condensed snapshot of the account's state (no trade/position/order lists).
    pub account: AccountSummary,
    /// The ID of the most recent transaction on the account.
    pub last_transaction_id: TransactionID,
}

/// Response body for `GET /v3/accounts/{accountID}/instruments`.
#[derive(Debug)]
pub struct GetInstrumentsResponse {
    /// The list of tradeable instruments for the account.
    pub instruments: Vec<Instrument>,
    /// ID of the most recent transaction on the account.
    pub last_transaction_id: TransactionID,
}

/// Response body for `PATCH /v3/accounts/{accountID}/configuration` (HTTP 200).
#[derive(Debug)]
pub struct ConfigureAccountResponse {
    /// The transaction that recorded the configuration change.
    pub client_configure_transaction: ClientConfigureTransaction,
    /// ID of the most recent transaction on the account.
    pub last_transaction_id: TransactionID,
}

/// Error response body for `PATCH /v3/accounts/{accountID}/configuration`
/// (HTTP 400 or 403).
#[derive(Debug)]
pub struct ConfigureAccountErrorResponse {
    /// The reject transaction that recorded the failed configuration attempt.
    /// `None` when OANDA omits it.
    pub client_configure_reject_transaction: Option<ClientConfigureRejectTransaction>,
    /// ID of the most recent transaction on the account. `None` when OANDA
    /// omits it.
    pub last_transaction_id: Option<TransactionID>,
    /// A machine-readable error code, if provided.
    pub error_code: Option<String>,
    /// A human-readable description of why the request was rejected.
    pub error_message: String,
}

/// Response body for `GET /v3/accounts/{accountID}/changes` (HTTP 200).
#[derive(Debug)]
pub struct GetAccountChangesResponse {
    /// All changes to the account since the requested transaction.
    pub changes: AccountChanges,
    /// Current dynamic state of the account (prices, margins, P&L).
    pub state: AccountChangesState,
    /// ID of the most recent transaction on the account.
    pub last_transaction_id: TransactionID,
}

/// Provides access to the OANDA Account endpoints (`/v3/accounts/...`).
/// 
/// The methods that take an account ID use it, trimmed of surrounding
/// whitespace, in place of the connection's default account; a blank one is
/// refused with [`APIError::InvalidRequest`].
pub struct AccountService<'a> {
    connection: &'a Connection,
}

impl<'a> AccountService<'a> {
    /// Creates a new `AccountService` bound to the given connection.
    pub fn new(connection: &'a Connection) -> (s: Self)
        ensures
            s.connection() == connection,
    {
        AccountService { connection }
    }

    /// The connection the service is bound to.
    pub closed spec fn connection(&self) -> &'a Connection {
        self.connection
    }

    /// Lists the accounts of the token: `GET /v3/accounts`.
    pub fn list(&self) -> (r: Result<Endpoint, APIError>)
        ensures
            endpoint_matches(
                r,
                self.connection().base_url,
                api_url_outcome(self.connection().base_url, seq!["v3"@, "accounts"@]),
                Seq::empty(),
                Method::Get,
                200,
                RejectRule::NoReject,
            ),
    {
        let url = api_url(&self.connection.base_url, &path2("v3", "accounts"));
        endpoint_at(url, Method::Get, 200, RejectRule::NoReject)
    }

    /// Returns the full details of an account: `GET /v3/accounts/{accountID}`.
    pub fn get_details(&self, account_id: &AccountID) -> (r: Result<Endpoint, APIError>)
        ensures
            endpoint_matches(
                r,
                self.connection().base_url,
                account_url_outcome(self.connection().base_url, Some(account_id@), Seq::<Seq<char>>::empty()),
                Seq::empty(),
                Method::Get,
                200,
                RejectRule::NoReject,
            ),
    {
        let none: Vec<String> = Vec::new();
        proof {
            assert(views(none@) =~= Seq::<Seq<char>>::empty());
        }
        let url = account_url(&self.connection.base_url, Some(account_id), &none);
        endpoint_at(url, Method::Get, 200, RejectRule::NoReject)
    }

    /// Returns a summary of an account: `GET .../summary`.
    pub fn get_summary(&self, account_id: &AccountID) -> (r: Result<Endpoint, APIError>)
        ensures
            endpoint_matches(
                r,
                self.connection().base_url,
                account_url_outcome(self.connection().base_url, Some(account_id@), seq!["summary"@]),
                Seq::empty(),
                Method::Get,
                200,
                RejectRule::NoReject,
            ),
    {
        let url = account_url(&self.connection.base_url, Some(account_id), &path1("summary"));
        endpoint_at(url, Method::Get, 200, RejectRule::NoReject)
    }

    /// Returns the tradeable instruments of an account: `GET .../instruments`,
    /// with `instruments` (the names, trimmed, joined with commas) when a
    /// list is given.
    pub fn get_instruments(
        &self,
        account_id: &AccountID,
        instruments: &Option<Vec<String>>,
    ) -> (r: Result<Endpoint, APIError>)
        ensures
            endpoint_matches(
                r,
                self.connection().base_url,
                account_url_outcome(self.connection().base_url, Some(account_id@), seq!["instruments"@]),
                optional_pair(
                    "instruments"@,
                    match instruments {
                        Some(v) => Some(instruments_value(views(v@))),
                        None => None,
                    },
                ),
                Method::Get,
                200,
                RejectRule::NoReject,
            ),
    {
        match account_url(&self.connection.base_url, Some(account_id), &path1("instruments")) {
            Ok(u) => {
                let mut url = u;
                let value = match instruments {
                    Some(v) => Some(join_trimmed(v)),
                    None => None,
                };
                url.append_optional_pair(
                    "instruments",
                    match &value {
                        Some(s) => Some(s.as_str()),
                        None => None,
                    },
                );
                Ok(Endpoint { method: Method::Get, url, success: 200, reject: RejectRule::NoReject })
            },
            Err(e) => Err(e),
        }
    }

    /// Updates the alias and/or margin rate of an account:
    /// `PATCH .../configuration`; a 400 or 403 carries its reject.
    pub fn configure(&self, account_id: &AccountID) -> (r: Result<Endpoint, APIError>)
        ensures
            endpoint_matches(
                r,
                self.connection().base_url,
                account_url_outcome(self.connection().base_url, Some(account_id@), seq!["configuration"@]),
                Seq::empty(),
                Method::Patch,
                200,
                RejectRule::ConfigureAccount,
            ),
    {
        let url = account_url(&self.connection.base_url, Some(account_id), &path1("configuration"));
        endpoint_at(url, Method::Patch, 200, RejectRule::ConfigureAccount)
    }

    /// Returns the changes to an account since a transaction:
    /// `GET .../changes?sinceTransactionID={id}`.
    pub fn get_changes(
        &self,
        account_id: &AccountID,
        since_transaction_id: &TransactionID,
    ) -> (r: Result<Endpoint, APIError>)
        ensures
            endpoint_matches(
                r,
                self.connection().base_url,
                account_url_outcome(self.connection().base_url, Some(account_id@), seq!["changes"@]),
                seq![("sinceTransactionID"@, since_transaction_id@)],
                Method::Get,
                200,
                RejectRule::NoReject,
            ),
    {
        match account_url(&self.connection.base_url, Some(account_id), &path1("changes")) {
            Ok(u) => {
                let mut url = u;
                let ghost before = url@.pairs;
                url.append_pair("sinceTransactionID", since_transaction_id.as_str());
                proof {
                    assert(url@.pairs =~= before + seq![("sinceTransactionID"@, since_transaction_id@)]);
                }
                Ok(Endpoint { method: Method::Get, url, success: 200, reject: RejectRule::NoReject })
            },
            Err(e) => Err(e),
        }
    }
}

impl ConfigureAccountRequest {
    /// Creates a new request with no fields set.
    pub fn new() -> (r: Self)
        ensures
            r == (ConfigureAccountRequest { alias: None, margin_rate: None }),
    {
        ConfigureAccountRequest { alias: None, margin_rate: None }
    }

    /// Sets the new alias of the account.
    pub fn alias(self, alias: String) -> (r: Self)
        ensures
            r == (ConfigureAccountRequest { alias: Some(alias), ..self }),
    {
        let mut r = self;
        r.alias = Some(alias);
        r
    }

    /// Sets the new margin rate of the account.
    pub fn margin_rate(self, margin_rate: DecimalNumber) -> (r: Self)
        ensures
            r == (ConfigureAccountRequest { margin_rate: Some(margin_rate), ..self }),
    {
        let mut r = self;
        r.margin_rate = Some(margin_rate);
        r
    }
}

} // verus!
