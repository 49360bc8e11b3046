//! The `GetCommunityBadgeProgress` method of `IPlayerService`.

use vstd::prelude::*;

verus! {

/// The name of the method in a request's address.
pub const ENDPOINT: &'static str = "GetCommunityBadgeProgress";

/// The version of the method in a request's address.
pub const VERSION: &'static str = "1";

/// Part of the reply of `GetCommunityBadgeProgress`.
#[derive(Debug, Clone)]
pub struct Quest {
    pub quest_id: u32,
    pub completed: bool,
}

/// Part of the reply of `GetCommunityBadgeProgress`.
#[derive(Debug, Clone)]
pub struct CommunityBadgeProgress {
    pub quests: Option<Vec<Quest>>,
}

} // verus!
