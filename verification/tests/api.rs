use steam_rs::app_id::AppId;
use steam_rs::steam_id::SteamId;
use steam_rs::steam_news::get_news_for_app::feed_list;
use steam_rs::steam_remote_storage::file_parameters;
use steam_rs::steam_user::id_list;
use steam_rs::published_file_service::query_files::{
    PublishedFileInfoMatchingFileType, PublishedFileQueryType,
};
use steam_rs::steam_user::get_friend_list::Relationship;
use steam_rs::steam_user_stats::get_player_achievements::Achievement;
use steam_rs::Steam;

#[test]
fn client_keeps_its_key() {
    assert_eq!("0123ABCD", Steam::new("0123ABCD").api_key());
    assert_eq!("", Steam::new("").api_key());
}

#[test]
fn app_id_in_base_ten() {
    assert_eq!("440", AppId(440).to_string());
    assert_eq!("0", AppId(0).to_string());
    assert_eq!("4294967295", AppId(u32::MAX).to_string());
}

#[test]
fn relationship_words() {
    assert_eq!("all", Relationship::All.to_string());
    assert_eq!("friends", Relationship::Friend.to_string());
}

#[test]
fn query_type_numbers() {
    assert_eq!(0, PublishedFileQueryType::RankedByVote.number());
    assert_eq!(3, PublishedFileQueryType::RankedByTrend.number());
    assert_eq!(12, PublishedFileQueryType::RankedByTextSearch.number());
    assert_eq!(21, PublishedFileQueryType::RankedByLastUpdatedDate.number());
    assert_eq!("0", PublishedFileQueryType::RankedByVote.to_string());
    assert_eq!("21", PublishedFileQueryType::RankedByLastUpdatedDate.to_string());
}

#[test]
fn file_type_numbers() {
    assert_eq!(0, PublishedFileInfoMatchingFileType::Items.number());
    assert_eq!(10, PublishedFileInfoMatchingFileType::AllGuides.number());
    assert_eq!(20, PublishedFileInfoMatchingFileType::GameManagedItems.number());
    assert_eq!("0", PublishedFileInfoMatchingFileType::Items.to_string());
    assert_eq!("20", PublishedFileInfoMatchingFileType::GameManagedItems.to_string());
}

#[test]
fn achievement_mark() {
    let mut achievement = Achievement { apiname: None, achieved: 1, unlocktime: Some(5) };
    assert!(achievement.achieved());
    achievement.achieved = 0;
    assert!(!achievement.achieved());
    achievement.achieved = 2;
    assert!(!achievement.achieved());
}

#[test]
fn identifiers_listed_for_a_request() {
    assert_eq!("", id_list(&[]));
    assert_eq!("76561197960435530,", id_list(&[SteamId(76561197960435530)]));
    assert_eq!(
        "76561198136162943,76561197960435530,0,",
        id_list(&[SteamId(76561198136162943), SteamId(76561197960435530), SteamId(0)])
    );
}

#[test]
fn feeds_listed_for_a_request() {
    assert_eq!("", feed_list(&[]));
    assert_eq!("steam_community_announcements,", feed_list(&["steam_community_announcements"]));
    assert_eq!("a,,b c,", feed_list(&["a", "", "b c"]));
}

#[test]
fn published_files_listed_for_a_request() {
    assert_eq!("itemcount=0", file_parameters("itemcount", &[]));
    assert_eq!(
        "collectioncount=1&publishedfileids[0]=532551393",
        file_parameters("collectioncount", &[532551393])
    );
    assert_eq!(
        "itemcount=3&publishedfileids[0]=7&publishedfileids[1]=0&publishedfileids[2]=18446744073709551615",
        file_parameters("itemcount", &[7, 0, u64::MAX])
    );
    let many: Vec<u64> = (0..12).collect();
    let text = file_parameters("n", &many);
    assert!(text.starts_with("n=12&publishedfileids[0]=0&"));
    assert!(text.ends_with("&publishedfileids[10]=10&publishedfileids[11]=11"));
}
