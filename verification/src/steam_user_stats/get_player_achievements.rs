//! The `GetPlayerAchievements` method of `ISteamUserStats`.

use vstd::prelude::*;

verus! {

/// The name of the method in a request's address.
pub const ENDPOINT: &'static str = "GetPlayerAchievements";

/// The version of the method in a request's address.
pub const VERSION: &'static str = "1";

/// Part of the reply of `GetPlayerAchievements`.
#[derive(Debug, Clone)]
pub struct PlayerStats {
    pub error: Option<String>,
    pub success: bool,
    pub steam_id: Option<String>,
    pub game_name: Option<String>,
    pub achievements: Option<Vec<Achievement>>,
}

/// Part of the reply of `GetPlayerAchievements`.
#[derive(Debug, Clone)]
pub struct Achievement {
    pub apiname: Option<String>,
    pub achieved: u8,
    pub unlocktime: Option<u64>,
}

impl Achievement {
    /// Whether the player has the achievement.
    pub open spec fn spec_achieved(&self) -> bool {
        self.achieved == 1
    }

    /// Whether the player has the achievement: whether its mark is 1.
    #[verifier::when_used_as_spec(spec_achieved)]
    pub fn achieved(&self) -> (r: bool)
        ensures
            r == self.spec_achieved(),
    {
        self.achieved == 1
    }
}

} // verus!
