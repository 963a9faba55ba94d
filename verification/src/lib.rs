//! A typed model of the OANDA v20 REST and streaming APIs: request builders,
//! endpoint routing, response classification and stream framing, with their
//! behaviour stated as contracts and checked by Verus.
use vstd::prelude::*;

pub mod account;
pub mod endpoint;
pub mod errors;
pub mod http;
pub mod instrument;
pub mod order;
pub mod position;
pub mod pricing;
pub mod primitives;
pub mod stream;
pub mod text;
pub mod trade;
pub mod transaction;
pub mod url;

verus! {

/// Adds two numbers.
pub fn add(left: u64, right: u64) -> (sum: u64)
    requires
        left + right <= u64::MAX,
    ensures
        sum == left + right,
{
    left + right
}

} // verus!
