//! The `AuthenticateUserTicket` method of `ISteamUserAuth`.

use vstd::prelude::*;

verus! {

/// The name of the method in a request's address.
pub const ENDPOINT: &'static str = "AuthenticateUserTicket";

/// The version of the method in a request's address.
pub const VERSION: &'static str = "1";

/// Part of the reply of `AuthenticateUserTicket`.
#[derive(Debug, Clone)]
pub struct TicketAuthResponse {
    pub result: String,
    pub steam_id: String,
    pub owner_steam_id: String,
    pub vac_banned: bool,
    pub publisher_banned: bool,
}

/// Part of the reply of `AuthenticateUserTicket`.
#[derive(Debug)]
pub struct WrapperParams {
    pub params: TicketAuthResponse,
}

} // verus!
