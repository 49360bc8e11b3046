//! The `ISteamUserStats` interface of the Steam Web API.

pub mod get_global_achievement_percentages_for_app;
pub mod get_number_of_current_players;
pub mod get_player_achievements;
pub mod get_user_stats_for_game;

use vstd::prelude::*;

verus! {

/// The name of the interface in a request's address.
pub const INTERFACE: &'static str = "ISteamUserStats";

} // verus!
