//! The `ISteamUserAuth` interface of the Steam Web API.

pub mod authenticate_user_ticket;

use vstd::prelude::*;

verus! {

/// The name of the interface in a request's address.
pub const INTERFACE: &'static str = "ISteamUserAuth";

} // verus!
