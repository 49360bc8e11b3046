//! The `GetNewsForApp` method of `ISteamNews`.

use vstd::prelude::*;
use vstd::string::*;

verus! {

/// The name of the method in a request's address.
pub const ENDPOINT: &'static str = "GetNewsForApp";

/// The version of the method in a request's address.
pub const VERSION: &'static str = "0002";

/// Part of the reply of `GetNewsForApp`.
#[derive(Debug, Clone)]
pub struct NewsItem {
    pub gid: String,
    pub title: String,
    pub url: String,
    pub is_external_url: bool,
    pub author: String,
    pub contents: String,
    pub feedlabel: String,
    pub date: u32,
    pub feedname: String,
    pub feed_type: u8,
    pub appid: u32,
    pub tags: Option<Vec<String>>,
}

/// Part of the reply of `GetNewsForApp`.
#[derive(Debug, Clone)]
pub struct AppNews {
    pub appid: u32,
    pub newsitems: Vec<NewsItem>,
    pub count: u32,
}

/// The feed names `feeds` as a request lists them: each followed by a comma.
pub open spec fn feed_list_text(feeds: Seq<&str>) -> Seq<char>
    decreases feeds.len(),
{
    if feeds.len() == 0 {
        Seq::<char>::empty()
    } else {
        feed_list_text(feeds.drop_last()) + feeds.last()@ + seq![',']
    }
}

/// The feed names `feeds` as a request lists them: each followed by a comma.
pub fn feed_list(feeds: &[&str]) -> (text: String)
    ensures
        text@ == feed_list_text(feeds@),
{
    let mut text = String::new();
    let mut at: usize = 0;
    assert(feeds@.subrange(0, 0) =~= Seq::<&str>::empty());
    while at < feeds.len()
        invariant
            at <= feeds.len(),
            text@ == feed_list_text(feeds@.subrange(0, at as int)),
        decreases feeds.len() - at,
    {
        proof {
            reveal_strlit(",");
            assert(","@ =~= seq![',']);
            assert(feeds@.subrange(0, at + 1).drop_last() =~= feeds@.subrange(0, at as int));
        }
        text.append(feeds[at]);
        text.append(",");
        at += 1;
    }
    assert(feeds@.subrange(0, feeds.len() as int) =~= feeds@);
    text
}

} // verus!
