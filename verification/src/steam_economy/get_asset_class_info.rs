//! The `GetAssetClassInfo` method of `ISteamEconomy`.

use vstd::prelude::*;

verus! {

/// The name of the method in a request's address.
pub const ENDPOINT: &'static str = "GetAssetClassInfo";

/// The version of the method in a request's address.
pub const VERSION: &'static str = "1";

/// Represents a description associated with an asset class.
#[derive(Debug, Clone)]
pub struct Description {
    /// The type of the description.
    pub kind: String,
    /// The value of the description.
    pub value: String,
    /// Application data associated with the description.
    pub app_data: String,
}

/// Represents an action associated with an asset class.
#[derive(Debug, Clone)]
pub struct Action {
    /// The name of the action.
    pub name: String,
    /// The link associated with the action.
    pub link: String,
}

/// Represents a tag associated with an asset class.
#[derive(Debug, Clone)]
pub struct Tag {
    /// The name of the tag.
    pub name: String,
    /// The internal name of the tag.
    pub internal_name: String,
    /// The category of the tag.
    pub category: String,
    /// The color of the tag, if available.
    pub color: Option<String>,
    /// The name of the category associated with the tag.
    pub category_name: String,
}

} // verus!
