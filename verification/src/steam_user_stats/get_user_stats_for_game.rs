//! The `GetUserStatsForGame` method of `ISteamUserStats`.

use std::collections::HashMap;
use vstd::prelude::*;

verus! {

/// The name of the method in a request's address.
pub const ENDPOINT: &'static str = "GetUserStatsForGame";

/// The version of the method in a request's address.
pub const VERSION: &'static str = "1";

/// Part of the reply of `GetUserStatsForGame`.
#[derive(Debug, Clone)]
pub enum UserGameStats {
    PlayerStats {
        steam_id: String,
        game_name: String,
        achievements: HashMap<String, Achievement>,
        stats: HashMap<String, Stat>,
    },
}

/// Part of the reply of `GetUserStatsForGame`.
#[derive(Debug, Clone)]
pub struct Achievement {
    pub apiname: Option<String>,
    pub achieved: u8,
    pub unlocktime: Option<u64>,
}

/// Part of the reply of `GetUserStatsForGame`.
#[derive(Debug, Clone)]
pub struct Stat {
    pub value: u64,
}

} // verus!
