//! The `ISteamRemoteStorage` interface of the Steam Web API.

pub mod get_collection_details;
pub mod get_published_file;

use crate::steam_id::decimal::decimal_text;
use crate::steam_id::decimal::push_decimal;
use vstd::prelude::*;
use vstd::string::*;

verus! {

/// The name of the interface in a request's address.
pub const INTERFACE: &'static str = "ISteamRemoteStorage";

/// The numbers of published files as a request's body lists them: for each
/// one `&publishedfileids[`, its place in the list counted from zero, `]=`
/// and the number.
pub open spec fn file_list_text(ids: Seq<u64>) -> Seq<char>
    decreases ids.len(),
{
    if ids.len() == 0 {
        Seq::<char>::empty()
    } else {
        file_list_text(ids.drop_last()) + "&publishedfileids["@ + decimal_text(
            (ids.len() - 1) as nat,
        ) + "]="@ + decimal_text(ids.last() as nat)
    }
}

/// The body of a request about the published files `ids`: the name of the
/// count, `=`, how many there are, and then the files.
pub open spec fn file_parameters_text(count_name: Seq<char>, ids: Seq<u64>) -> Seq<char> {
    count_name + seq!['='] + decimal_text(ids.len()) + file_list_text(ids)
}

/// The body of a request about the published files `ids`: the name of the
/// count, `=`, how many there are, and then each file under its place in
/// the list.
pub fn file_parameters(count_name: &str, ids: &[u64]) -> (text: String)
    ensures
        text@ == file_parameters_text(count_name@, ids@),
{
    let mut text = count_name.to_owned();
    proof {
        reveal_strlit("=");
        assert("="@ =~= seq!['=']);
    }
    text.append("=");
    push_decimal(&mut text, ids.len() as u64);
    let ghost head = text@;
    let mut at: usize = 0;
    assert(ids@.subrange(0, 0) =~= Seq::<u64>::empty());
    assert(text@ =~= head + file_list_text(ids@.subrange(0, 0)));
    while at < ids.len()
        invariant
            at <= ids.len(),
            head == count_name@ + seq!['='] + decimal_text(ids.len() as nat),
            text@ == head + file_list_text(ids@.subrange(0, at as int)),
        decreases ids.len() - at,
    {
        proof {
            assert(ids@.subrange(0, at + 1).drop_last() =~= ids@.subrange(0, at as int));
        }
        text.append("&publishedfileids[");
        push_decimal(&mut text, at as u64);
        text.append("]=");
        push_decimal(&mut text, ids[at]);
        at += 1;
        assert(text@ =~= head + file_list_text(ids@.subrange(0, at as int)));
    }
    assert(ids@.subrange(0, ids.len() as int) =~= ids@);
    text
}

} // verus!
