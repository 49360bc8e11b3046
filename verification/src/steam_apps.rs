//! The `ISteamApps` interface of the Steam Web API.

pub mod get_app_list;
pub mod get_servers_at_address;
pub mod up_to_date_check;

use vstd::prelude::*;

verus! {

/// The name of the interface in a request's address.
pub const INTERFACE: &'static str = "ISteamApps";

} // verus!
