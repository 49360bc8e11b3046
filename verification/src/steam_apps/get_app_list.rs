//! The `GetAppList` method of `ISteamApps`.

use vstd::prelude::*;

verus! {

/// The name of the method in a request's address.
pub const ENDPOINT: &'static str = "GetAppList";

/// The version of the method in a request's address.
pub const VERSION: &'static str = "2";

/// Represents a Steam app.
#[derive(Debug, Clone)]
pub struct App {
    /// App ID of this application.
    pub appid: u32,
    /// The name of this application.
    pub name: String,
}

/// Part of the reply of `GetAppList`.
#[derive(Debug, Clone)]
pub struct AppList {
    /// The vector containing the applications.
    pub apps: Vec<App>,
}

} // verus!
