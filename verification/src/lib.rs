//! Bindings for the Steam Web API, built around a verified codec for the
//! 64-bit Steam identifier and its three textual forms.
//!
//! The codec lives in [`steam_id`]. The other modules hold, interface by
//! interface, the names that a request's address is made of and the data
//! that the replies carry.

pub mod app_id;
pub mod econ_service;
pub mod game_servers_service;
pub mod player_service;
pub mod published_file_service;
pub mod site_license_service;
pub mod steam_apps;
pub mod steam_economy;
pub mod steam_id;
pub mod steam_news;
pub mod steam_remote_storage;
pub mod steam_user;
pub mod steam_user_auth;
pub mod steam_user_stats;
pub mod steam_webapi_util;

use vstd::prelude::*;

verus! {

/// The address that every request starts with.
pub const BASE: &'static str = "https://api.steampowered.com";

/// A client of the Steam Web API: the key that its requests are made with.
pub struct Steam {
    api_key: String,
}

impl Steam {
    /// The key that the client was made with.
    pub closed spec fn key(&self) -> Seq<char> {
        self.api_key@
    }

    /// A client that makes its requests with `api_key`.
    pub fn new(api_key: &str) -> (steam: Steam)
        ensures
            steam.key() == api_key@,
    {
        Steam { api_key: api_key.to_owned() }
    }

    /// The key that the client was made with.
    pub fn api_key(&self) -> (key: &str)
        ensures
            key@ == self.key(),
    {
        self.api_key.as_str()
    }
}

} // verus!
