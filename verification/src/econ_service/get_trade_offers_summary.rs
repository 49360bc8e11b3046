//! The `GetTradeOffersSummary` method of `IEconService`.

use vstd::prelude::*;

verus! {

/// The name of the method in a request's address.
pub const ENDPOINT: &'static str = "GetTradeOffersSummary";

/// The version of the method in a request's address.
pub const VERSION: &'static str = "1";

/// Part of the reply of `GetTradeOffersSummary`.
#[derive(Debug, Clone)]
pub struct TradeOffersSummary {
    pub pending_recieved_count: Option<u32>,
    pub new_recieved_count: Option<u32>,
    pub updated_recieved_count: Option<u32>,
    pub historical_recieved_count: Option<u32>,
    pub pending_sent_count: Option<u32>,
    pub newly_recieved_count: Option<u32>,
    pub updated_sent_count: Option<u32>,
    pub historical_sent_count: Option<u32>,
    pub escrow_recieved_count: Option<u32>,
    pub escrow_sent_count: Option<u32>,
}

} // verus!
