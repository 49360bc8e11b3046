//! The `IPlayerService` interface of the Steam Web API.

pub mod get_badges;
pub mod get_community_badge_progress;
pub mod get_owned_games;
pub mod get_recently_played_games;
pub mod get_steam_level;

use vstd::prelude::*;

verus! {

/// The name of the interface in a request's address.
pub const INTERFACE: &'static str = "IPlayerService";

} // verus!
