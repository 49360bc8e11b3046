//! The `GetPublishedFileDetails` method of `ISteamRemoteStorage`.

use vstd::prelude::*;

verus! {

/// The name of the method in a request's address.
pub const ENDPOINT: &'static str = "GetPublishedFileDetails";

/// The version of the method in a request's address.
pub const VERSION: &'static str = "1";

/// Part of the reply of `GetPublishedFileDetails`.
#[derive(Debug, Clone)]
pub struct PublishedFileDetails {
    pub published_file_id: String,
    pub result: u32,
}

/// Part of the reply of `GetPublishedFileDetails`.
#[derive(Debug, Clone)]
pub struct Response {
    pub result: u32,
    pub result_count: u32,
    pub published_file_details: Vec<PublishedFileDetails>,
}

} // verus!
