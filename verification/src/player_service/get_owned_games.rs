//! The `GetOwnedGames` method of `IPlayerService`.

use vstd::prelude::*;

verus! {

/// The name of the method in a request's address.
pub const ENDPOINT: &'static str = "GetOwnedGames";

/// The version of the method in a request's address.
pub const VERSION: &'static str = "1";

/// Part of the reply of `GetOwnedGames`.
#[derive(Debug, Clone)]
pub struct OwnedGames {
    pub game_count: u64,
    pub games: Vec<Game>,
}

/// Part of the reply of `GetOwnedGames`.
#[derive(Debug, Clone)]
pub struct Game {
    pub appid: u32,
    pub name: Option<String>,
    pub playtime_forever: u64,
    pub img_icon_url: Option<String>,
    pub capsule_filename: Option<String>,
    pub has_workshop: Option<bool>,
    pub has_market: Option<bool>,
    pub has_dlc: Option<bool>,
    pub rtime_last_played: Option<u64>,
}

} // verus!
