//! The `GetTotalPlaytime` method of `ISiteLicenseService`.

use crate::site_license_service::GameName;
use vstd::prelude::*;

verus! {

/// The name of the method in a request's address.
pub const ENDPOINT: &'static str = "GetTotalPlaytime";

/// The version of the method in a request's address.
pub const VERSION: &'static str = "1";

/// Part of the reply of `GetTotalPlaytime`.
#[derive(Debug)]
pub struct Game {
    /// ID of game in the `game_names` section of the response.
    pub id: u32,
    /// Playtime is divided up for each game by the type of license used. See the `GetCurrentClientConnections` endpoint for the list.
    pub license_type: String,
    /// Total playtime for this game and license type, in seconds, for the requested period.
    pub playtime_seconds: u32,
}

/// Part of the reply of `GetTotalPlaytime`.
#[derive(Debug)]
pub struct Site {
    /// 64-bit SiteID of the site.
    pub id: u64,
    /// Site name assigned to the site.
    pub site_name: String,
    /// List of all game titles played.
    pub games: Vec<Game>,
}

/// Part of the reply of `GetTotalPlaytime`.
#[derive(Debug)]
pub struct TotalPlaytime {
    /// A vector of site details.
    pub sites: Vec<Site>,
    /// Mapped vector of game names.
    pub game_names: Vec<GameName>,
}

} // verus!
