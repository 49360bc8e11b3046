//! The `IPublishedFileService` interface of the Steam Web API.

pub mod query_files;

use vstd::prelude::*;

verus! {

/// The name of the interface in a request's address.
pub const INTERFACE: &'static str = "IPublishedFileService";

} // verus!
