//! The `GetAssetPrices` method of `ISteamEconomy`.

use std::collections::HashMap;
use vstd::prelude::*;

verus! {

/// The name of the method in a request's address.
pub const ENDPOINT: &'static str = "GetAssetPrices";

/// The version of the method in a request's address.
pub const VERSION: &'static str = "1";

/// Represents asset prices for a specific app.
#[derive(Debug, Clone)]
pub struct AssetPrices {
    /// Indicates whether the request to retrieve asset prices was successful.
    pub success: bool,
    /// A vector containing information about each asset.
    pub assets: Vec<Asset>,
    /// Optional tags associated with the assets.
    pub tags: Option<HashMap<String, String>>,
    /// Optional tag IDs associated with the assets.
    pub tag_ids: Option<HashMap<u64, u64>>,
}

/// Represents an asset.
#[derive(Debug, Clone)]
pub struct Asset {
    /// Prices associated with the asset.
    ///
    /// This maps the price of the asset in different currencies (USD, GBP, EUR, etc.).
    pub prices: HashMap<String, u64>,
    /// The name of the asset.
    pub name: String,
    /// The date of the asset's creation.
    pub date: String,
    /// The classes associated with the asset.
    pub class: Vec<HashMap<String, String>>,
    /// The class ID of the asset.
    pub classid: String,
    /// Optional tags associated with the asset.
    pub tags: Option<Vec<String>>,
    /// Optional tag IDs associated with the asset.
    pub tag_ids: Option<Vec<u64>>,
}

} // verus!
