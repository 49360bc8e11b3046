//! The `ISteamNews` interface of the Steam Web API.

pub mod get_news_for_app;

use vstd::prelude::*;

verus! {

/// The name of the interface in a request's address.
pub const INTERFACE: &'static str = "ISteamNews";

} // verus!
