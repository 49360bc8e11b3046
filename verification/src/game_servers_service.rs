//! The `IGameServersService` interface of the Steam Web API.

pub mod get_account_list;
pub mod get_account_public_info;
pub mod query_login_token;

use vstd::prelude::*;

verus! {

/// The name of the interface in a request's address.
pub const INTERFACE: &'static str = "IGameServersService";

} // verus!
