//! The `GetTradeOffers` method of `IEconService`.

use vstd::prelude::*;

verus! {

/// The name of the method in a request's address.
pub const ENDPOINT: &'static str = "GetTradeOffers";

/// The version of the method in a request's address.
pub const VERSION: &'static str = "1";

/// Part of the reply of `GetTradeOffers`.
#[derive(Debug, Clone)]
pub struct TradeOffer {
    pub next_cursor: u32,
    pub trade_offers_received: Option<Vec<OfferReceived>>,
}

/// Part of the reply of `GetTradeOffers`.
#[derive(Debug, Clone)]
pub struct OfferReceived {
    pub tradeofferid: String,
    pub accountid_other: u32,
    pub message: String,
    pub expiration_time: u32,
    pub trade_offer_state: u32,
    pub items_to_give: Vec<ItemsGive>,
}

/// Part of the reply of `GetTradeOffers`.
#[derive(Debug, Clone)]
pub struct ItemsGive {
    pub appid: u32,
    pub contextid: String,
    pub assetid: String,
    pub classid: String,
    pub instanceid: String,
    pub amount: String,
    pub missing: bool,
}

} // verus!
