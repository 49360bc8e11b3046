//! The `GetBadges` method of `IPlayerService`.

use vstd::prelude::*;

verus! {

/// The name of the method in a request's address.
pub const ENDPOINT: &'static str = "GetBadges";

/// The version of the method in a request's address.
pub const VERSION: &'static str = "1";

/// Part of the reply of `GetBadges`.
#[derive(Debug, Clone)]
pub struct Badge {
    pub badgeid: u32,
    pub level: u32,
    pub completion_time: u32,
    pub xp: u32,
    pub scarcity: u32,
}

/// Part of the reply of `GetBadges`.
#[derive(Debug, Clone)]
pub struct BadgeResponse {
    pub badges: Vec<Badge>,
    pub player_xp: u32,
    pub player_level: u32,
    pub player_xp_needed_to_level_up: u32,
    pub player_xp_needed_current_level: u32,
}

} // verus!
