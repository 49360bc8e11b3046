//! The `GetCollectionDetails` method of `ISteamRemoteStorage`.

use vstd::prelude::*;

verus! {

/// The name of the method in a request's address.
pub const ENDPOINT: &'static str = "GetCollectionDetails";

/// The version of the method in a request's address.
pub const VERSION: &'static str = "1";

/// Part of the reply of `GetCollectionDetails`.
#[derive(Debug, Clone)]
pub struct CollectionDetails {
    pub published_file_id: String,
    pub result: u32,
}

/// Part of the reply of `GetCollectionDetails`.
#[derive(Debug, Clone)]
pub struct Response {
    pub result: u32,
    pub result_count: u32,
    pub collection_details: Vec<CollectionDetails>,
}

} // verus!
