//! The `UpToDateCheck` method of `ISteamApps`.

use vstd::prelude::*;

verus! {

/// The name of the method in a request's address.
pub const ENDPOINT: &'static str = "UpToDateCheck";

/// The version of the method in a request's address.
pub const VERSION: &'static str = "1";

/// Part of the reply of `UpToDateCheck`.
#[derive(Debug, Clone)]
pub struct UpToDateResponse {
    /// Boolean indicating if request was successful.
    pub success: bool,
    /// Boolean indicating if the given version number is the most current version.
    pub up_to_date: bool,
    /// Boolean indicating if the given version can be listed in public changelogs. [\[debated\]](https://wiki.teamfortress.com/wiki/WebAPI/UpToDateCheck#cite_note-1)
    pub version_is_listable: bool,
    /// Integer of the most current version of the app available.
    pub required_version: Option<u32>,
    /// A string giving the status message if applicable.
    pub message: Option<String>,
}

} // verus!
