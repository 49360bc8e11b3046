//! The `GetServersAtAddress` method of `ISteamApps`.

use vstd::prelude::*;

verus! {

/// The name of the method in a request's address.
pub const ENDPOINT: &'static str = "GetServersAtAddress";

/// The version of the method in a request's address.
pub const VERSION: &'static str = "1";

/// Part of the reply of `GetServersAtAddress`.
#[derive(Debug)]
pub struct Server {
    /// Gives the ip address, and the port number. Ex: "64.94.100.204:27015"
    pub address: String,
    /// Gives the GMS index. Ex: 65534
    pub gms_index: i32,
    pub steamid: String,
    pub reject: Option<String>,
    /// Gives the steam game appid. Ex: 730
    pub appid: u32,
    /// Tells which directory the game is from. Ex: "csgo"
    pub gamedir: String,
    /// Gives the region of the server. Ex: 1
    pub region: i32,
    /// If server is secure or not.
    pub secure: bool,
    /// If server is a lan game.
    pub lan: bool,
    /// Gives the port number for the server. Ex: 27015
    pub gameport: u32,
    /// Gives the specport. Ex: 0
    pub specport: u32,
}

/// Part of the reply of `GetServersAtAddress`.
#[derive(Debug)]
pub struct ServersResponse {
    /// Returns true if IP address is valid, does not mean server is functioning properly.
    pub success: bool,
    /// A list of every server from this IP address.
    pub servers: Option<Vec<Server>>,
    /// Message given if success is false.
    pub message: Option<String>,
}

} // verus!
