//! The `GetFriendList` method of `ISteamUser`.

use crate::steam_id::SteamId;
use vstd::prelude::*;
use vstd::string::*;

verus! {

/// The name of the method in a request's address.
pub const ENDPOINT: &'static str = "GetFriendList";

/// The version of the method in a request's address.
pub const VERSION: &'static str = "1";

/// Represents the types of relationships a user can have with their friends on Steam.
#[derive(PartialEq, Debug, Clone, Copy, Structural)]
pub enum Relationship {
    /// All relationships.
    All,
    /// Friends relationship.
    Friend,
}

impl Relationship {
    /// The word that names the relationship in a request.
    pub open spec fn word(self) -> Seq<char> {
        match self {
            Relationship::All => seq!['a', 'l', 'l'],
            Relationship::Friend => seq!['f', 'r', 'i', 'e', 'n', 'd', 's'],
        }
    }

    /// The word that names the relationship in a request: `all` or
    /// `friends`.
    pub fn to_string(&self) -> (text: String)
        ensures
            text@ == self.word(),
    {
        proof {
            reveal_strlit("all");
            reveal_strlit("friends");
        }
        let text = match self {
            Relationship::All => "all".to_owned(),
            Relationship::Friend => "friends".to_owned(),
        };
        assert(text@ =~= self.word());
        text
    }
}

/// Represents a friend of a Steam user.
#[derive(Debug, Clone)]
pub struct Friend {
    /// The 64 bit ID of the friend.
    pub steam_id: SteamId,
    /// Role in relation to the given SteamID.
    pub relationship: Relationship,
    /// A unix timestamp of when the friend was added to the list.
    pub friend_since: u32,
}

} // verus!
