//! The `GetNumberOfCurrentPlayers` method of `ISteamUserStats`.

use vstd::prelude::*;

verus! {

/// The name of the method in a request's address.
pub const ENDPOINT: &'static str = "GetNumberOfCurrentPlayers";

/// The version of the method in a request's address.
pub const VERSION: &'static str = "1";

} // verus!
