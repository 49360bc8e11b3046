//! The `GetAccountList` method of `IGameServersService`.

use crate::steam_id::SteamId;
use vstd::prelude::*;

verus! {

/// The name of the method in a request's address.
pub const ENDPOINT: &'static str = "GetAccountList";

/// The version of the method in a request's address.
pub const VERSION: &'static str = "1";

/// Part of the reply of `GetAccountList`.
#[derive(Debug, Clone)]
pub struct Server {
    pub server_steam_id: SteamId,
    pub appid: u32,
    pub login_token: String,
    pub memo: String,
    pub is_deleted: bool,
    pub is_expired: bool,
    pub rt_last_logon: u32,
}

/// Part of the reply of `GetAccountList`.
#[derive(Debug, Clone)]
pub struct AccountsResponse {
    pub servers: Vec<Server>,
    pub is_banned: bool,
    pub expires: u32,
    pub actor: SteamId,
    pub last_action_time: u32,
}

} // verus!
