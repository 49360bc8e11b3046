//! The `QueryLoginToken` method of `IGameServersService`.

use crate::steam_id::SteamId;
use vstd::prelude::*;

verus! {

/// The name of the method in a request's address.
pub const ENDPOINT: &'static str = "QueryLoginToken";

/// The version of the method in a request's address.
pub const VERSION: &'static str = "1";

/// Part of the reply of `QueryLoginToken`.
#[derive(Debug, Clone)]
pub struct LoginTokenResponse {
    pub is_banned: bool,
    pub expires: u32,
    pub server_steam_id: SteamId,
}

} // verus!
