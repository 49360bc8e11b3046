//! The `IEconService` interface of the Steam Web API.

pub mod get_trade_history;
pub mod get_trade_offer;
pub mod get_trade_offers;
pub mod get_trade_offers_summary;

use vstd::prelude::*;

verus! {

/// The name of the interface in a request's address.
pub const INTERFACE: &'static str = "IEconService";

} // verus!
