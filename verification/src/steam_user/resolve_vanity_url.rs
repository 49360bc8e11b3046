//! The `ResolveVanityURL` method of `ISteamUser`.

use vstd::prelude::*;

verus! {

/// The name of the method in a request's address.
pub const ENDPOINT: &'static str = "ResolveVanityURL";

/// The version of the method in a request's address.
pub const VERSION: &'static str = "1";

/// Part of the reply of `ResolveVanityURL`.
#[derive(Debug, Clone)]
pub struct ResolveVanityURLResponse {
    /// The message associated with the request status. Currently only used on resolution failures.
    pub message: Option<String>,
    /// The 64 bit Steam ID the vanity URL resolves to. Not returned on resolution failures.
    pub steamid: Option<String>,
    /// The status of the request. 1 if successful, 42 if there was no match.
    pub success: u8,
}

} // verus!
