//! What a call to the API sends and how its response is read: the HTTP
//! method, the URL, the status that means success, and which statuses
//! carry an endpoint's documented reject body.
use crate::errors::APIError;
use crate::http::invalid_request_message;
use crate::text::views;
use crate::url::Url;
use vstd::prelude::*;

verus! {

/// The HTTP method of a request.
#[derive(Debug, Clone, Copy, PartialEq, Eq, Structural)]
pub enum Method {
    /// `GET`.
    Get,
    /// `POST`.
    Post,
    /// `PUT`.
    Put,
    /// `PATCH`.
    Patch,
}

/// The documented reject bodies of the OANDA endpoints, each decoded into
/// the [`ErrorResponse`](crate::errors::ErrorResponse) variant of the same
/// name.
#[derive(Debug, Clone, Copy, PartialEq, Eq, Structural)]
pub enum RejectBody {
    /// An `OrderCreateErrorResponse`.
    OrderCreate,
    /// An `OrderCancelErrorResponse`.
    OrderCancel,
    /// An `UpdateOrderClientExtensionsErrorResponse`.
    UpdateOrderClientExtensions,
    /// An `UpdateTradeClientExtensionsErrorResponse`.
    UpdateTradeClientExtensions,
    /// A `ConfigureAccountErrorResponse`.
    ConfigureAccount,
    /// A `CloseTradeErrorResponse`.
    CloseTrade,
    /// A `ClosePositionErrorResponse`.
    ClosePosition,
}

/// Which failure statuses of an endpoint carry a documented reject body.
#[derive(Debug, Clone, Copy, PartialEq, Eq, Structural)]
pub enum RejectRule {
    /// The endpoint documents no reject body.
    NoReject,
    /// Order creation: 400 and 404 carry an order-create reject.
    OrderCreate,
    /// Order replacement: 400 carries an order-create reject, 404 an
    /// order-cancel reject.
    OrderReplace,
    /// Order cancellation: 404 carries an order-cancel reject.
    OrderCancel,
    /// Order client extensions: 400 and 404 carry their reject.
    OrderClientExtensions,
    /// Trade client extensions: 400 and 404 carry their reject.
    TradeClientExtensions,
    /// Closing a trade: 400 and 404 carry a close-trade reject.
    TradeClose,
    /// Closing a position: 400 and 404 carry a close-position reject.
    PositionClose,
    /// Account configuration: 400 and 403 carry its reject.
    ConfigureAccount,
}

/// The reject body that `rule` documents for `status`, if any.
pub open spec fn reject_body(rule: RejectRule, status: u16) -> Option<RejectBody> {
    match rule {
        RejectRule::NoReject => None,
        RejectRule::OrderCreate => if status == 400 || status == 404 {
            Some(RejectBody::OrderCreate)
        } else {
            None
        },
        RejectRule::OrderReplace => if status == 400 {
            Some(RejectBody::OrderCreate)
        } else if status == 404 {
            Some(RejectBody::OrderCancel)
        } else {
            None
        },
        RejectRule::OrderCancel => if status == 404 {
            Some(RejectBody::OrderCancel)
        } else {
            None
        },
        RejectRule::OrderClientExtensions => if status == 400 || status == 404 {
            Some(RejectBody::UpdateOrderClientExtensions)
        } else {
            None
        },
        RejectRule::TradeClientExtensions => if status == 400 || status == 404 {
            Some(RejectBody::UpdateTradeClientExtensions)
        } else {
            None
        },
        RejectRule::TradeClose => if status == 400 || status == 404 {
            Some(RejectBody::CloseTrade)
        } else {
            None
        },
        RejectRule::PositionClose => if status == 400 || status == 404 {
            Some(RejectBody::ClosePosition)
        } else {
            None
        },
        RejectRule::ConfigureAccount => if status == 400 || status == 403 {
            Some(RejectBody::ConfigureAccount)
        } else {
            None
        },
    }
}

impl RejectRule {
    /// The reject body documented for `status`, if any.
    pub fn body_for(&self, status: u16) -> (b: Option<RejectBody>)
        ensures
            b == reject_body(*self, status),
    {
        match self {
            RejectRule::NoReject => None,
            RejectRule::OrderCreate => if status == 400 || status == 404 {
                Some(RejectBody::OrderCreate)
            } else {
                None
            },
            RejectRule::OrderReplace => if status == 400 {
                Some(RejectBody::OrderCreate)
            } else if status == 404 {
                Some(RejectBody::OrderCancel)
            } else {
                None
            },
            RejectRule::OrderCancel => if status == 404 {
                Some(RejectBody::OrderCancel)
            } else {
                None
            },
            RejectRule::OrderClientExtensions => if status == 400 || status == 404 {
                Some(RejectBody::UpdateOrderClientExtensions)
            } else {
                None
            },
            RejectRule::TradeClientExtensions => if status == 400 || status == 404 {
                Some(RejectBody::UpdateTradeClientExtensions)
            } else {
                None
            },
            RejectRule::TradeClose => if status == 400 || status == 404 {
                Some(RejectBody::CloseTrade)
            } else {
                None
            },
            RejectRule::PositionClose => if status == 400 || status == 404 {
                Some(RejectBody::ClosePosition)
            } else {
                None
            },
            RejectRule::ConfigureAccount => if status == 400 || status == 403 {
                Some(RejectBody::ConfigureAccount)
            } else {
                None
            },
        }
    }
}

/// How the body of a response is to be read.
#[derive(Debug, Clone, Copy, PartialEq, Eq, Structural)]
pub enum ResponseClass {
    /// The success status: the body is the endpoint's response type.
    Success,
    /// A documented failure status: the body is tried as this reject
    /// body, and read as a common error when that fails.
    Reject(RejectBody),
    /// Any other status: the body is read as a common error.
    Common,
}

/// The class of a response with `status` from an endpoint whose success
/// status is `success` and whose rejects follow `rule`.
pub open spec fn response_class(success: u16, rule: RejectRule, status: u16) -> ResponseClass {
    if status == success {
        ResponseClass::Success
    } else {
        match reject_body(rule, status) {
            Some(b) => ResponseClass::Reject(b),
            None => ResponseClass::Common,
        }
    }
}

/// A request to send: its method and URL, the status that means success,
/// and the rule for its documented rejects.
pub struct Endpoint {
    /// The HTTP method.
    pub method: Method,
    /// The URL, path and query included.
    pub url: Url,
    /// The status of a successful response (200 or 201).
    pub success: u16,
    /// Which failure statuses carry a documented reject body.
    pub reject: RejectRule,
}

impl Endpoint {
    /// How to read the body of a response with `status`.
    pub fn classify(&self, status: u16) -> (c: ResponseClass)
        ensures
            c == response_class(self.success, self.reject, status),
    {
        if status == self.success {
            ResponseClass::Success
        } else {
            match self.reject.body_for(status) {
                Some(b) => ResponseClass::Reject(b),
                None => ResponseClass::Common,
            }
        }
    }
}

/// The contract of the endpoint builders: when `outcome` is an error
/// message, `r` is an invalid request with that message; otherwise `r` is
/// the endpoint with `method`, `success` and `reject`, whose URL keeps the
/// base's parts, has the outcome's path segments, and the outcome's query
/// pairs followed by `extra`.
pub open spec fn endpoint_matches(
    r: Result<Endpoint, APIError>,
    base: Url,
    outcome: Result<(Seq<Seq<char>>, Seq<(Seq<char>, Seq<char>)>), Seq<char>>,
    extra: Seq<(Seq<char>, Seq<char>)>,
    method: Method,
    success: u16,
    reject: RejectRule,
) -> bool {
    match outcome {
        Ok((segments, pairs)) => match r {
            Ok(e) => {
                &&& e.method == method
                &&& e.success == success
                &&& e.reject == reject
                &&& e.url@.base == base@.base
                &&& e.url@.segments == segments
                &&& e.url@.pairs == pairs + extra
            },
            Err(_) => false,
        },
        Err(m) => match r {
            Ok(_) => false,
            Err(e) => invalid_request_message(e) == Some(m),
        },
    }
}

/// The endpoint at `url` when it was built, or the error that stopped it.
pub fn endpoint_at(url: Result<Url, APIError>, method: Method, success: u16, reject: RejectRule) -> (r:
    Result<Endpoint, APIError>)
    ensures
        match url {
            Ok(u) => r matches Ok(e) && e.url@ == u@ && e.method == method && e.success == success
                && e.reject == reject,
            Err(m) => r matches Err(e) && invalid_request_message(e) == invalid_request_message(m),
        },
{
    match url {
        Ok(u) => Ok(Endpoint { method, url: u, success, reject }),
        Err(e) => Err(e),
    }
}

/// The path segments `[a]`.
pub fn path1(a: &str) -> (v: Vec<String>)
    ensures
        views(v@) == seq![a@],
{
    let mut v: Vec<String> = Vec::new();
    v.push(String::from_str(a));
    proof {
        assert(views(v@) =~= seq![a@]);
    }
    v
}

/// The path segments `[a, b]`.
pub fn path2(a: &str, b: &str) -> (v: Vec<String>)
    ensures
        views(v@) == seq![a@, b@],
{
    let mut v: Vec<String> = Vec::new();
    v.push(String::from_str(a));
    v.push(String::from_str(b));
    proof {
        assert(views(v@) =~= seq![a@, b@]);
    }
    v
}

/// The path segments `[a, b, c]`.
pub fn path3(a: &str, b: &str, c: &str) -> (v: Vec<String>)
    ensures
        views(v@) == seq![a@, b@, c@],
{
    let mut v: Vec<String> = Vec::new();
    v.push(String::from_str(a));
    v.push(String::from_str(b));
    v.push(String::from_str(c));
    proof {
        assert(views(v@) =~= seq![a@, b@, c@]);
    }
    v
}

/// The path segments `[a, b, c, d]`.
pub fn path4(a: &str, b: &str, c: &str, d: &str) -> (v: Vec<String>)
    ensures
        views(v@) == seq![a@, b@, c@, d@],
{
    let mut v: Vec<String> = Vec::new();
    v.push(String::from_str(a));
    v.push(String::from_str(b));
    v.push(String::from_str(c));
    v.push(String::from_str(d));
    proof {
        assert(views(v@) =~= seq![a@, b@, c@, d@]);
    }
    v
}

/// The documented reject bodies, endpoint by endpoint: a 400 or 404 of an
/// order creation is an order-create reject; of an order replacement, an
/// order-create and an order-cancel reject; a 404 of an order cancellation
/// is an order-cancel reject; a 400 or 404 of a client-extensions update of
/// an order or of a trade is that update's reject; of a trade or position
/// close, that close's reject; a 400 or 403 of an account configuration is
/// its reject. No other of these statuses carries one, and a reject body
/// read from a documented status is what that status is classified as,
/// whatever success status the endpoint has besides.
pub proof fn lemma_documented_reject_table()
    ensures
        reject_body(RejectRule::NoReject, 400) is None,
        reject_body(RejectRule::NoReject, 403) is None,
        reject_body(RejectRule::NoReject, 404) is None,
        reject_body(RejectRule::OrderCreate, 400) == Some(RejectBody::OrderCreate),
        reject_body(RejectRule::OrderCreate, 403) is None,
        reject_body(RejectRule::OrderCreate, 404) == Some(RejectBody::OrderCreate),
        reject_body(RejectRule::OrderReplace, 400) == Some(RejectBody::OrderCreate),
        reject_body(RejectRule::OrderReplace, 403) is None,
        reject_body(RejectRule::OrderReplace, 404) == Some(RejectBody::OrderCancel),
        reject_body(RejectRule::OrderCancel, 400) is None,
        reject_body(RejectRule::OrderCancel, 403) is None,
        reject_body(RejectRule::OrderCancel, 404) == Some(RejectBody::OrderCancel),
        reject_body(RejectRule::OrderClientExtensions, 400) == Some(RejectBody::UpdateOrderClientExtensions),
        reject_body(RejectRule::OrderClientExtensions, 403) is None,
        reject_body(RejectRule::OrderClientExtensions, 404) == Some(RejectBody::UpdateOrderClientExtensions),
        reject_body(RejectRule::TradeClientExtensions, 400) == Some(RejectBody::UpdateTradeClientExtensions),
        reject_body(RejectRule::TradeClientExtensions, 403) is None,
        reject_body(RejectRule::TradeClientExtensions, 404) == Some(RejectBody::UpdateTradeClientExtensions),
        reject_body(RejectRule::TradeClose, 400) == Some(RejectBody::CloseTrade),
        reject_body(RejectRule::TradeClose, 403) is None,
        reject_body(RejectRule::TradeClose, 404) == Some(RejectBody::CloseTrade),
        reject_body(RejectRule::PositionClose, 400) == Some(RejectBody::ClosePosition),
        reject_body(RejectRule::PositionClose, 403) is None,
        reject_body(RejectRule::PositionClose, 404) == Some(RejectBody::ClosePosition),
        reject_body(RejectRule::ConfigureAccount, 400) == Some(RejectBody::ConfigureAccount),
        reject_body(RejectRule::ConfigureAccount, 403) == Some(RejectBody::ConfigureAccount),
        reject_body(RejectRule::ConfigureAccount, 404) is None,
        forall|success: u16, rule: RejectRule, status: u16|
            #![trigger response_class(success, rule, status)]
            status != success && reject_body(rule, status) is Some ==> response_class(
                success,
                rule,
                status,
            ) == ResponseClass::Reject(reject_body(rule, status)->0),
{
}

/// A status carries a reject body only when it is 400, 403 or 404: a
/// response with any other status that is not the success status, such as
/// 401, is read as a common error.
pub proof fn lemma_rejects_only_on_documented_statuses(success: u16, rule: RejectRule, status: u16)
    requires
        status != 400,
        status != 403,
        status != 404,
    ensures
        reject_body(rule, status) is None,
        status != success ==> response_class(success, rule, status) == ResponseClass::Common,
{
}


/// `outcome`, unless it succeeded and `ok` does not hold: then the error
/// `message`.
pub open spec fn checked_outcome(
    outcome: Result<(Seq<Seq<char>>, Seq<(Seq<char>, Seq<char>)>), Seq<char>>,
    ok: bool,
    message: Seq<char>,
) -> Result<(Seq<Seq<char>>, Seq<(Seq<char>, Seq<char>)>), Seq<char>> {
    match outcome {
        Ok(x) => if ok {
            Ok(x)
        } else {
            Err(message)
        },
        Err(m) => Err(m),
    }
}

} // verus!
