//! The `ISteamWebAPIUtil` interface of the Steam Web API.

pub mod get_server_info;
pub mod get_supported_api_list;

use vstd::prelude::*;

verus! {

/// The name of the interface in a request's address.
pub const INTERFACE: &'static str = "ISteamWebAPIUtil";

} // verus!
