//! The `GetTradeHistory` method of `IEconService`.

use vstd::prelude::*;

verus! {

/// The name of the method in a request's address.
pub const ENDPOINT: &'static str = "GetTradeHistory";

/// The version of the method in a request's address.
pub const VERSION: &'static str = "1";

/// Part of the reply of `GetTradeHistory`.
#[derive(Debug, Clone)]
pub struct TradeHistory {
    pub total_trades: u32,
    pub more: bool,
    pub trades: Vec<Trade>,
}

/// Part of the reply of `GetTradeHistory`.
#[derive(Debug, Clone)]
pub struct Trade {
    pub tradeid: String,
    pub steamid_other: String,
    pub time_init: u32,
    pub status: u32,
    pub assets_given: Option<Vec<Assets>>,
    pub assets_recieved: Option<Vec<Assets>>,
}

/// Part of the reply of `GetTradeHistory`.
#[derive(Debug, Clone)]
pub struct Assets {
    pub appid: u32,
    pub contextid: String,
    pub assetid: String,
    pub amount: String,
    pub classid: String,
    pub instanceid: String,
    pub new_assetid: String,
    pub new_contextid: String,
}

} // verus!
