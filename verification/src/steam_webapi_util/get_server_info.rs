//! The `GetServerInfo` method of `ISteamWebAPIUtil`.

use vstd::prelude::*;

verus! {

/// The name of the method in a request's address.
pub const ENDPOINT: &'static str = "GetServerInfo";

/// The version of the method in a request's address.
pub const VERSION: &'static str = "1";

/// Part of the reply of `GetServerInfo`.
#[derive(Debug, Clone)]
pub struct ServerInfo {
    /// Returns Unix timestamp of WebAPI server time.
    pub server_time: u32,
    /// Returns time string of WebAPI server time.
    pub server_time_string: String,
}

} // verus!
