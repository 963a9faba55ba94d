//! The transaction endpoints (`/v3/accounts/{accountID}/transactions/...`):
//! for each call, the request to send and how its response is read.
use crate::endpoint::{endpoint_at, endpoint_matches, path1, path2, Endpoint, Method, RejectRule};
use crate::errors::APIError;
use crate::http::{account_url_outcome, Connection};
use crate::transaction::request::{
    id_range_pairs, list_transactions_pairs, since_id_pairs, GetTransactionsByIDRangeRequest,
    GetTransactionsBySinceIDRequest, ListTransactionsRequest,
};
use crate::transaction::types::TransactionID;
use vstd::prelude::*;

verus! {

/// Provides access to the OANDA Transaction endpoints
/// (`/v3/accounts/{id}/transactions/...`).
pub struct TransactionService<'a> {
    connection: &'a Connection,
}

impl<'a> TransactionService<'a> {
    /// Creates a new `TransactionService` bound to the given connection.
    pub fn new(connection: &'a Connection) -> (s: Self)
        ensures
            s.connection() == connection,
    {
        TransactionService { connection }
    }

    /// The connection the service is bound to.
    pub closed spec fn connection(&self) -> &'a Connection {
        self.connection
    }

    /// Lists transactions, filtered by `req`: `GET .../transactions` with the
    /// query of `req`.
    pub fn list(&self, req: &ListTransactionsRequest) -> (r: Result<Endpoint, APIError>)
        ensures
            endpoint_matches(
                r,
                self.connection().base_url,
                account_url_outcome(
                    self.connection().base_url,
                    self.connection().account_id.deep_view(),
                    seq!["transactions"@],
                ),
                list_transactions_pairs(*req),
                Method::Get,
                200,
                RejectRule::NoReject,
            ),
    {
        match self.connection.account_url(&path1("transactions")) {
            Ok(u) => {
                let mut url = u;
                req.set_params(&mut url);
                Ok(Endpoint { method: Method::Get, url, success: 200, reject: RejectRule::NoReject })
            },
            Err(e) => Err(e),
        }
    }

    /// Returns one transaction: `GET .../transactions/{id}`.
    pub fn get_details(&self, id: &TransactionID) -> (r: Result<Endpoint, APIError>)
        ensures
            endpoint_matches(
                r,
                self.connection().base_url,
                account_url_outcome(
                    self.connection().base_url,
                    self.connection().account_id.deep_view(),
                    seq!["transactions"@, id@],
                ),
                Seq::empty(),
                Method::Get,
                200,
                RejectRule::NoReject,
            ),
    {
        let url = self.connection.account_url(&path2("transactions", id.as_str()));
        endpoint_at(url, Method::Get, 200, RejectRule::NoReject)
    }

    /// Returns the transactions of an ID range: `GET .../transactions/idrange`
    /// with the query of `req`.
    pub fn get_by_id_range(
        &self,
        req: &GetTransactionsByIDRangeRequest,
    ) -> (r: Result<Endpoint, APIError>)
        ensures
            endpoint_matches(
                r,
                self.connection().base_url,
                account_url_outcome(
                    self.connection().base_url,
                    self.connection().account_id.deep_view(),
                    seq!["transactions"@, "idrange"@],
                ),
                id_range_pairs(req@),
                Method::Get,
                200,
                RejectRule::NoReject,
            ),
    {
        match self.connection.account_url(&path2("transactions", "idrange")) {
            Ok(u) => {
                let mut url = u;
                req.set_params(&mut url);
                Ok(Endpoint { method: Method::Get, url, success: 200, reject: RejectRule::NoReject })
            },
            Err(e) => Err(e),
        }
    }

    /// Returns the transactions after an ID: `GET .../transactions/sinceid`
    /// with the query of `req`.
    pub fn get_by_since_id(
        &self,
        req: &GetTransactionsBySinceIDRequest,
    ) -> (r: Result<Endpoint, APIError>)
        ensures
            endpoint_matches(
                r,
                self.connection().base_url,
                account_url_outcome(
                    self.connection().base_url,
                    self.connection().account_id.deep_view(),
                    seq!["transactions"@, "sinceid"@],
                ),
                since_id_pairs(req@),
                Method::Get,
                200,
                RejectRule::NoReject,
            ),
    {
        match self.connection.account_url(&path2("transactions", "sinceid")) {
            Ok(u) => {
                let mut url = u;
                req.set_params(&mut url);
                Ok(Endpoint { method: Method::Get, url, success: 200, reject: RejectRule::NoReject })
            },
            Err(e) => Err(e),
        }
    }
}

} // verus!
