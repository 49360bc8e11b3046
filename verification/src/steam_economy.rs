//! The `ISteamEconomy` interface of the Steam Web API.

pub mod get_asset_class_info;
pub mod get_asset_prices;

use vstd::prelude::*;

verus! {

/// The name of the interface in a request's address.
pub const INTERFACE: &'static str = "ISteamEconomy";

} // verus!
