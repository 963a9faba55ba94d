//! Responses of the transaction endpoints.
use crate::primitives::Timestamp;
use crate::transaction::event::Transaction;
use crate::transaction::types::TransactionID;
use vstd::prelude::*;

verus! {

/// Response body for `GET /v3/accounts/{accountID}/transactions` (HTTP 200).
///
/// The actual transactions are not embedded here; instead, `pages` contains
/// URLs for fetching each page of transactions individually.
#[derive(Debug)]
pub struct ListTransactionsResponse {
    /// Total number of transactions matching the query.
    pub count: i64,
    /// Start of the time range covered by this response.
    pub from: Timestamp,
    /// End of the time range covered by this response.
    pub to: Timestamp,
    /// Maximum number of transactions per page used for this response.
    pub page_size: i64,
    /// URLs for each page of results. Fetch each URL to retrieve the transactions.
    pub pages: Vec<String>,
    /// ID of the most recent transaction on the account.
    pub last_transaction_id: TransactionID,
}

/// Response body for `GET /v3/accounts/{accountID}/transactions/{transactionID}` (HTTP 200).
#[derive(Debug)]
pub struct GetTransactionDetailsResponse {
    /// The requested transaction.
    pub transaction: Transaction,
    /// ID of the most recent transaction on the account.
    pub last_transaction_id: TransactionID,
}

/// Response body for `GET /v3/accounts/{accountID}/transactions/idrange` and
/// `GET /v3/accounts/{accountID}/transactions/sinceid` (HTTP 200).
#[derive(Debug)]
pub struct GetTransactionsResponse {
    /// The transactions matching the request.
    pub transactions: Vec<Transaction>,
    /// ID of the most recent transaction on the account.
    pub last_transaction_id: TransactionID,
}

} // verus!
