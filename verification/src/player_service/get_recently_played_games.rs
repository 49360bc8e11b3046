//! The `GetRecentlyPlayedGames` method of `IPlayerService`.

use vstd::prelude::*;

verus! {

/// The name of the method in a request's address.
pub const ENDPOINT: &'static str = "GetRecentlyPlayedGames";

/// The version of the method in a request's address.
pub const VERSION: &'static str = "0001";

/// Part of the reply of `GetRecentlyPlayedGames`.
#[derive(Debug, Clone)]
pub struct Game {
    pub appid: u32,
    pub name: Option<String>,
    pub playtime_2weeks: Option<u32>,
    pub playtime_forever: u32,
    pub img_icon_url: Option<String>,
    pub img_logo_url: Option<String>,
}

/// Part of the reply of `GetRecentlyPlayedGames`.
#[derive(Debug, Clone)]
pub struct RecentlyPlayedGames {
    pub total_count: u32,
    pub games: Vec<Game>,
}

} // verus!
