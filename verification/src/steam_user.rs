//! The `ISteamUser` interface of the Steam Web API.

pub mod get_friend_list;
pub mod get_player_bans;
pub mod get_player_summaries;
pub mod get_user_group_list;
pub mod resolve_vanity_url;

use crate::steam_id::SteamId;
use crate::steam_id::decimal::push_decimal;
use vstd::prelude::*;
use vstd::string::*;

verus! {

/// The name of the interface in a request's address.
pub const INTERFACE: &'static str = "ISteamUser";

/// The identifiers `ids` as a request lists them: each in the decimal form
/// and followed by a comma.
pub open spec fn id_list_text(ids: Seq<SteamId>) -> Seq<char>
    decreases ids.len(),
{
    if ids.len() == 0 {
        Seq::<char>::empty()
    } else {
        id_list_text(ids.drop_last()) + ids.last().decimal_form() + seq![',']
    }
}

/// The identifiers `ids` as a request lists them: each in the decimal form
/// and followed by a comma.
pub fn id_list(ids: &[SteamId]) -> (text: String)
    ensures
        text@ == id_list_text(ids@),
{
    let mut text = String::new();
    let mut at: usize = 0;
    assert(ids@.subrange(0, 0) =~= Seq::<SteamId>::empty());
    while at < ids.len()
        invariant
            at <= ids.len(),
            text@ == id_list_text(ids@.subrange(0, at as int)),
        decreases ids.len() - at,
    {
        proof {
            reveal_strlit(",");
            assert(","@ =~= seq![',']);
            assert(ids@.subrange(0, at + 1).drop_last() =~= ids@.subrange(0, at as int));
        }
        push_decimal(&mut text, ids[at].0);
        text.append(",");
        at += 1;
    }
    assert(ids@.subrange(0, ids.len() as int) =~= ids@);
    text
}

} // verus!
