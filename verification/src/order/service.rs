//! The order endpoints (`/v3/accounts/{accountID}/orders/...`): for each
//! call, the request to send and how its response is read.
use crate::endpoint::{
    endpoint_at, endpoint_matches, path1, path2, path3, Endpoint, Method, RejectRule,
};
use crate::errors::APIError;
use crate::http::{account_url_outcome, Connection};
use crate::order::model::OrderSpecifier;
use crate::order::request::{list_orders_pairs, ListOrdersRequest};
use vstd::prelude::*;

verus! {

/// Provides access to the OANDA Order endpoints (`/v3/accounts/{id}/orders/...`).
///
/// Each method gives the request of one call on the connection's default
/// account; a missing or blank account ID, or a specifier that cannot be a
/// path segment, is refused with [`APIError::InvalidRequest`].
pub struct OrderService<'a> {
    connection: &'a Connection,
}

impl<'a> OrderService<'a> {
    /// Creates a new `OrderService` bound to the given connection.
    pub fn new(connection: &'a Connection) -> (s: Self)
        ensures
            s.connection() == connection,
    {
        OrderService { connection }
    }

    /// The connection the service is bound to.
    pub closed spec fn connection(&self) -> &'a Connection {
        self.connection
    }

    /// Creates a new order on the account: `POST .../orders`, 201 on
    /// success; a 400 or 404 carries an order-create reject.
    pub fn create(&self) -> (r: Result<Endpoint, APIError>)
        ensures
            endpoint_matches(
                r,
                self.connection().base_url,
                account_url_outcome(
                    self.connection().base_url,
                    self.connection().account_id.deep_view(),
                    seq!["orders"@],
                ),
                Seq::empty(),
                Method::Post,
                201,
                RejectRule::OrderCreate,
            ),
    {
        let url = self.connection.account_url(&path1("orders"));
        endpoint_at(url, Method::Post, 201, RejectRule::OrderCreate)
    }

    /// Lists orders on the account, filtered by `req`: `GET .../orders`
    /// with the query of `req`.
    pub fn list(&self, req: &ListOrdersRequest) -> (r: Result<Endpoint, APIError>)
        ensures
            endpoint_matches(
                r,
                self.connection().base_url,
                account_url_outcome(
                    self.connection().base_url,
                    self.connection().account_id.deep_view(),
                    seq!["orders"@],
                ),
                list_orders_pairs(req@),
                Method::Get,
                200,
                RejectRule::NoReject,
            ),
    {
        match self.connection.account_url(&path1("orders")) {
            Ok(u) => {
                let mut url = u;
                req.set_params(&mut url);
                Ok(Endpoint { method: Method::Get, url, success: 200, reject: RejectRule::NoReject })
            },
            Err(e) => Err(e),
        }
    }

    /// Returns all pending orders on the account: `GET .../pendingOrders`.
    pub fn list_pending(&self) -> (r: Result<Endpoint, APIError>)
        ensures
            endpoint_matches(
                r,
                self.connection().base_url,
                account_url_outcome(
                    self.connection().base_url,
                    self.connection().account_id.deep_view(),
                    seq!["pendingOrders"@],
                ),
                Seq::empty(),
                Method::Get,
                200,
                RejectRule::NoReject,
            ),
    {
        let url = self.connection.account_url(&path1("pendingOrders"));
        endpoint_at(url, Method::Get, 200, RejectRule::NoReject)
    }

    /// Returns the details of a single order: `GET .../orders/{specifier}`.
    pub fn get_details(&self, specifier: &OrderSpecifier) -> (r: Result<Endpoint, APIError>)
        ensures
            endpoint_matches(
                r,
                self.connection().base_url,
                account_url_outcome(
                    self.connection().base_url,
                    self.connection().account_id.deep_view(),
                    seq!["orders"@, specifier@],
                ),
                Seq::empty(),
                Method::Get,
                200,
                RejectRule::NoReject,
            ),
    {
        let url = self.connection.account_url(&path2("orders", specifier.as_str()));
        endpoint_at(url, Method::Get, 200, RejectRule::NoReject)
    }

    /// Replaces an order with a new one: `PUT .../orders/{specifier}`, 201
    /// on success; a 400 carries an order-create reject and a 404 an
    /// order-cancel reject.
    pub fn replace(&self, specifier: &OrderSpecifier) -> (r: Result<Endpoint, APIError>)
        ensures
            endpoint_matches(
                r,
                self.connection().base_url,
                account_url_outcome(
                    self.connection().base_url,
                    self.connection().account_id.deep_view(),
                    seq!["orders"@, specifier@],
                ),
                Seq::empty(),
                Method::Put,
                201,
                RejectRule::OrderReplace,
            ),
    {
        let url = self.connection.account_url(&path2("orders", specifier.as_str()));
        endpoint_at(url, Method::Put, 201, RejectRule::OrderReplace)
    }

    /// Cancels a pending order: `PUT .../orders/{specifier}/cancel`; a 404
    /// carries an order-cancel reject.
    pub fn cancel(&self, specifier: &OrderSpecifier) -> (r: Result<Endpoint, APIError>)
        ensures
            endpoint_matches(
                r,
                self.connection().base_url,
                account_url_outcome(
                    self.connection().base_url,
                    self.connection().account_id.deep_view(),
                    seq!["orders"@, specifier@, "cancel"@],
                ),
                Seq::empty(),
                Method::Put,
                200,
                RejectRule::OrderCancel,
            ),
    {
        let url = self.connection.account_url(&path3("orders", specifier.as_str(), "cancel"));
        endpoint_at(url, Method::Put, 200, RejectRule::OrderCancel)
    }

    /// Updates the client extensions of an order and of its trade:
    /// `PUT .../orders/{specifier}/clientExtensions`; a 400 or 404 carries
    /// their reject.
    pub fn update_client_extensions(&self, specifier: &OrderSpecifier) -> (r: Result<
        Endpoint,
        APIError,
    >)
        ensures
            endpoint_matches(
                r,
                self.connection().base_url,
                account_url_outcome(
                    self.connection().base_url,
                    self.connection().account_id.deep_view(),
                    seq!["orders"@, specifier@, "clientExtensions"@],
                ),
                Seq::empty(),
                Method::Put,
                200,
                RejectRule::OrderClientExtensions,
            ),
    {
        let url = self.connection.account_url(
            &path3("orders", specifier.as_str(), "clientExtensions"),
        );
        endpoint_at(url, Method::Put, 200, RejectRule::OrderClientExtensions)
    }
}

} // verus!
