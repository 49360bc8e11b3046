//! The `GetPlayerSummaries` method of `ISteamUser`.

use crate::steam_id::SteamId;
use vstd::prelude::*;

verus! {

/// The name of the method in a request's address.
pub const ENDPOINT: &'static str = "GetPlayerSummaries";

/// The version of the method in a request's address.
pub const VERSION: &'static str = "0002";

/// Represents a user profile object.
///
/// Contained information varies depending on whether or not the user has their profile set to Friends only or Private.
#[derive(Debug, Clone)]
pub struct Player {
    /// The user's 64-bit ID
    pub steam_id: SteamId,
    /// User's display name.
    pub persona_name: String,
    /// The URL to the user's Steam Community profile.
    pub profile_url: String,
    /// The URL to the user's avatar as a 32x32 image
    pub avatar: String,
    /// The URL to the user's avatar as a 64x64 image
    pub avatar_medium: String,
    /// The URL to the user's avatar as a 184x184 image
    pub avatar_full: String,
    /// Hash of the user's avatar
    pub avatar_hash: String,
    /// The user's status
    /// - 0: Offline (Also set when the profile is Private)
    /// - 1: Online
    /// - 2: Busy
    /// - 3: Away
    /// - 4: Snooze
    /// - 5: Looking to trade
    /// - 6: Looking to play
    pub persona_state: u8,
    /// An integer that describes the access setting of the profile.
    /// - 1: Private
    /// - 2: Friends only
    /// - 3: Friends of Friends
    /// - 4: Users Only
    /// - 5: Public
    pub community_visibility_state: u8,
    /// If set to 1, the user has configured the profile.
    pub profile_state: Option<u8>,
    /// A unix timestamp of when the user was last online.
    pub last_logoff: Option<u64>,
    /// If present the profile allows public comments.
    pub comment_permission: Option<u8>,
    /// The user's real name.
    pub real_name: Option<String>,
    /// The 64-bit ID of the user's primary group.
    pub primary_clan_id: Option<String>,
    /// A unix timestamp of the date the profile was created.
    pub time_created: Option<u64>,
    /// If the user is in game this will be set to it's app ID as a string.
    pub game_id: Option<String>,
    /// The server URL given as an IP address and port number separated by a colon.
    /// This will not be present or set to "0.0.0.0:0" if none is available.
    pub game_server_ip: Option<String>,
    /// The title of the game that the user is playing.
    pub game_extra_info: Option<String>,
    /// ISO 3166 code of where the user is located.
    pub loc_country_code: Option<String>,
    /// Variable length code representing the state the user is located in.
    pub loc_state_code: Option<String>,
    /// An integer ID internal to Steam representing the user's city.
    pub loc_city_id: Option<u64>,
}

} // verus!
