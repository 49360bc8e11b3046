//! The `GetPlayerBans` method of `ISteamUser`.

use crate::steam_id::SteamId;
use vstd::prelude::*;

verus! {

/// The name of the method in a request's address.
pub const ENDPOINT: &'static str = "GetPlayerBans";

/// The version of the method in a request's address.
pub const VERSION: &'static str = "1";

/// Represents a player object with data about bans.
#[derive(Debug, Clone)]
pub struct Player {
    /// A string containing the player's 64-bit ID.
    pub steam_id: String,
    /// Boolean indicating whether or not the player is banned
    /// from the [Steam Community](http://steamcommunity.com/).
    pub community_banned: bool,
    /// Boolean indicating whether or not the player has VAC bans on record.
    pub vac_banned: bool,
    /// Number of VAC bans.
    pub number_of_vac_bans: u32,
    /// Days since the player's last ban.
    pub days_since_last_ban: u32,
    /// Number of bans in games.
    pub number_of_game_bans: u32,
    /// String containing the player's ban status in the economy.
    /// If the player has no bans on record the string will be "none",
    /// if the player is on probation it will say "probation", and so forth.
    pub economy_ban: String,
}

} // verus!
