//! The `GetAccountPublicInfo` method of `IGameServersService`.

use crate::steam_id::SteamId;
use vstd::prelude::*;

verus! {

/// The name of the method in a request's address.
pub const ENDPOINT: &'static str = "GetAccountPublicInfo";

/// The version of the method in a request's address.
pub const VERSION: &'static str = "1";

/// Part of the reply of `GetAccountPublicInfo`.
#[derive(Debug, Clone)]
pub struct PublicInfoResponse {
    pub server_steam_id: Option<SteamId>,
    pub appid: Option<u32>,
}

} // verus!
