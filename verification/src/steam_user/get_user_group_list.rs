//! The `GetUserGroupList` method of `ISteamUser`.

use vstd::prelude::*;

verus! {

/// The name of the method in a request's address.
pub const ENDPOINT: &'static str = "GetUserGroupList";

/// The version of the method in a request's address.
pub const VERSION: &'static str = "1";

/// Part of the reply of `GetUserGroupList`.
#[derive(Debug, Clone)]
pub struct UserGroupsResponse {
    /// Boolean indicating if request was successful.
    pub success: bool,
    /// Error message that is given only if request was unsuccessful
    pub error: Option<String>,
    /// A vector of `Group` objects, representing the groups that the user is a member of
    pub groups: Vec<Group>,
}

/// Represents a Steam group
#[derive(Debug, Clone)]
pub struct Group {
    /// The group's ID
    pub gid: String,
}

} // verus!
