//! The `GetSteamLevel` method of `IPlayerService`.

use vstd::prelude::*;

verus! {

/// The name of the method in a request's address.
pub const ENDPOINT: &'static str = "GetSteamLevel";

/// The version of the method in a request's address.
pub const VERSION: &'static str = "1";

} // verus!
