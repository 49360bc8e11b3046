//! The `GetSupportedAPIList` method of `ISteamWebAPIUtil`.

use vstd::prelude::*;

verus! {

/// The name of the method in a request's address.
pub const ENDPOINT: &'static str = "GetSupportedAPIList";

/// The version of the method in a request's address.
pub const VERSION: &'static str = "1";

/// Represents a parameter for an WebAPI method.
#[derive(Debug, Clone)]
pub struct Parameter {
    /// Name of the parameter.
    pub name: String,
    /// Expected type of value.
    pub kind: String,
    /// If input is optional for the method, then true.
    pub optional: bool,
    /// API documentation of parameter.
    pub description: Option<String>,
}

/// Represents a method within an API interface.
#[derive(Debug, Clone)]
pub struct Method {
    /// Name of the method.
    pub name: String,
    /// Version of the method.
    pub version: u8,
    /// Allowed HTTP method for method (GET, POST).
    pub http_method: String,
    /// Parameters for the method.
    pub parameters: Option<Vec<Parameter>>,
}

/// Represents an API interface
#[derive(Debug, Clone)]
pub struct Interface {
    /// Name of the interface.
    pub name: String,
    /// Methods within the interface.
    pub methods: Vec<Method>,
}

/// List of WebAPI interfaces
#[derive(Debug, Clone)]
pub struct APIList {
    /// Vector of API interfaces
    pub interfaces: Vec<Interface>,
}

} // verus!
