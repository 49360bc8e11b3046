//! The `GetCurrentClientConnections` method of `ISiteLicenseService`.

use crate::site_license_service::GameName;
use vstd::prelude::*;

verus! {

/// The name of the method in a request's address.
pub const ENDPOINT: &'static str = "GetCurrentClientConnections";

/// The version of the method in a request's address.
pub const VERSION: &'static str = "1";

/// Part of the reply of `GetCurrentClientConnections`.
#[derive(Debug)]
pub struct Game {
    /// ID of game in the `game_names` section of the response.
    pub id: u32,
    /// Time this game session started (RFC 3339 UTC format).
    pub start_time: String,
    /// Playtime is divided up for each game by the type of license used. See the GetCurrentClientConnections section above for the list.
    pub license_type: String,
}

/// Part of the reply of `GetCurrentClientConnections`.
#[derive(Debug)]
pub struct Client {
    /// IP address of client computer.
    pub ip_address: String,
    /// Machine name of client computer.
    pub hostname: String,
    /// Vector of active game sessions on the client computer.
    pub games: Vec<Game>,
}

/// Part of the reply of `GetCurrentClientConnections`.
#[derive(Debug)]
pub struct Site {
    /// 64-bit SiteID of the site.
    pub id: u64,
    /// Site name assigned to the site.
    pub site_name: String,
    /// Vector of active clients at the site.
    pub clients: Vec<Client>,
}

/// Part of the reply of `GetCurrentClientConnections`.
#[derive(Debug)]
pub struct CurrentClientConnections {
    /// A vector of site details.
    pub sites: Vec<Site>,
    /// Mapped vector of game names.
    pub game_names: Vec<GameName>,
}

} // verus!
