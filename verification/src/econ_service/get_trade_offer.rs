//! The `GetTradeOffer` method of `IEconService`.

use vstd::prelude::*;

verus! {

/// The name of the method in a request's address.
pub const ENDPOINT: &'static str = "GetTradeOffer";

/// The version of the method in a request's address.
pub const VERSION: &'static str = "1";

/// Part of the reply of `GetTradeOffer`.
#[derive(Debug, Clone)]
pub struct TradeOffer {
    pub id: String,
    pub accountid_other: u32,
    pub message: String,
    pub expiration_time: u32,
    pub trade_offer_state: u32,
    pub items_to_give: Option<Vec<Item>>,
    pub items_to_recieve: Option<Vec<Item>>,
    pub is_our_offer: bool,
    pub time_created: u32,
    pub time_updated: u32,
    pub from_real_time_trade: bool,
    pub escrow_end_date: u32,
    pub confirmation_method: u32,
    pub eresult: u32,
}

/// Part of the reply of `GetTradeOffer`.
#[derive(Debug, Clone)]
pub struct Item {
    pub appid: u32,
    pub contextid: String,
    pub assetid: String,
    pub classid: String,
    pub instanceid: String,
    pub amount: String,
    pub missing: bool,
    pub est_usd: String,
}

/// Part of the reply of `GetTradeOffer`.
#[derive(Debug, Clone)]
pub struct Offer {
    pub offer: TradeOffer,
}

} // verus!
