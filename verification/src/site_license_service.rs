//! The `ISiteLicenseService` interface of the Steam Web API.

pub mod get_current_client_connections;
pub mod get_total_playtime;

use vstd::prelude::*;

verus! {

/// The name of the interface in a request's address.
pub const INTERFACE: &'static str = "ISiteLicenseService";

/// Part of a reply of `ISiteLicenseService`.
#[derive(Debug, Clone)]
pub struct GameName {
    /// ID number of entry.
    pub id: u32,
    /// Game name.
    pub name: String,
}

} // verus!
