//! The `QueryFiles` method of `IPublishedFileService`.

use crate::steam_id::decimal::decimal_text;
use crate::steam_id::decimal::push_decimal;
use vstd::prelude::*;

verus! {

/// The name of the method in a request's address.
pub const ENDPOINT: &'static str = "QueryFiles";

/// The version of the method in a request's address.
pub const VERSION: &'static str = "1";

/// Represents the query types used when querying published files on Steam Workshop.
#[derive(Debug, Clone, Copy, PartialEq, Eq, Structural)]
pub enum PublishedFileQueryType {
    /// Ranked by vote.
    RankedByVote,
    /// Ranked by publication date.
    RankedByPublicationDate,
    /// Accepted for the game, ranked by acceptance date.
    AcceptedForGameRankedByAcceptanceDate,
    /// Ranked by trend.
    RankedByTrend,
    /// Favorited by friends, ranked by publication date.
    FavoritedByFriendsRankedByPublicationDate,
    /// Created by friends, ranked by publication date.
    CreatedByFriendsRankedByPublicationDate,
    /// Ranked by number of times reported.
    RankedByNumTimesReported,
    /// Created by followed users, ranked by publication date.
    CreatedByFollowedUsersRankedByPublicationDate,
    /// Not yet rated.
    NotYetRated,
    /// Ranked by total unique subscriptions.
    RankedByTotalUniqueSubscriptions,
    /// Ranked by total votes ascending.
    RankedByTotalVotesAsc,
    /// Ranked by votes up.
    RankedByVotesUp,
    /// Ranked by text search.
    RankedByTextSearch,
    /// Ranked by playtime trend.
    RankedByPlaytimeTrend,
    /// Ranked by total playtime.
    RankedByTotalPlaytime,
    /// Ranked by average playtime trend.
    RankedByAveragePlaytimeTrend,
    /// Ranked by lifetime average playtime.
    RankedByLifetimeAveragePlaytime,
    /// Ranked by playtime sessions trend.
    RankedByPlaytimeSessionsTrend,
    /// Ranked by lifetime playtime sessions.
    RankedByLifetimePlaytimeSessions,
    /// Ranked by inappropriate content rating.
    RankedByInappropriateContentRating,
    /// Ranked by ban content check.
    RankedByBanContentCheck,
    /// Ranked by last updated date.
    RankedByLastUpdatedDate,
}

impl PublishedFileQueryType {
    /// The number that stands for this value in a request.
    pub open spec fn spec_number(self) -> u64 {
        match self {
            PublishedFileQueryType::RankedByVote => 0,
            PublishedFileQueryType::RankedByPublicationDate => 1,
            PublishedFileQueryType::AcceptedForGameRankedByAcceptanceDate => 2,
            PublishedFileQueryType::RankedByTrend => 3,
            PublishedFileQueryType::FavoritedByFriendsRankedByPublicationDate => 4,
            PublishedFileQueryType::CreatedByFriendsRankedByPublicationDate => 5,
            PublishedFileQueryType::RankedByNumTimesReported => 6,
            PublishedFileQueryType::CreatedByFollowedUsersRankedByPublicationDate => 7,
            PublishedFileQueryType::NotYetRated => 8,
            PublishedFileQueryType::RankedByTotalUniqueSubscriptions => 9,
            PublishedFileQueryType::RankedByTotalVotesAsc => 10,
            PublishedFileQueryType::RankedByVotesUp => 11,
            PublishedFileQueryType::RankedByTextSearch => 12,
            PublishedFileQueryType::RankedByPlaytimeTrend => 13,
            PublishedFileQueryType::RankedByTotalPlaytime => 14,
            PublishedFileQueryType::RankedByAveragePlaytimeTrend => 15,
            PublishedFileQueryType::RankedByLifetimeAveragePlaytime => 16,
            PublishedFileQueryType::RankedByPlaytimeSessionsTrend => 17,
            PublishedFileQueryType::RankedByLifetimePlaytimeSessions => 18,
            PublishedFileQueryType::RankedByInappropriateContentRating => 19,
            PublishedFileQueryType::RankedByBanContentCheck => 20,
            PublishedFileQueryType::RankedByLastUpdatedDate => 21,
        }
    }

    /// The number that stands for this value in a request.
    #[verifier::when_used_as_spec(spec_number)]
    pub fn number(self) -> (n: u64)
        ensures
            n == self.spec_number(),
    {
        match self {
            PublishedFileQueryType::RankedByVote => 0,
            PublishedFileQueryType::RankedByPublicationDate => 1,
            PublishedFileQueryType::AcceptedForGameRankedByAcceptanceDate => 2,
            PublishedFileQueryType::RankedByTrend => 3,
            PublishedFileQueryType::FavoritedByFriendsRankedByPublicationDate => 4,
            PublishedFileQueryType::CreatedByFriendsRankedByPublicationDate => 5,
            PublishedFileQueryType::RankedByNumTimesReported => 6,
            PublishedFileQueryType::CreatedByFollowedUsersRankedByPublicationDate => 7,
            PublishedFileQueryType::NotYetRated => 8,
            PublishedFileQueryType::RankedByTotalUniqueSubscriptions => 9,
            PublishedFileQueryType::RankedByTotalVotesAsc => 10,
            PublishedFileQueryType::RankedByVotesUp => 11,
            PublishedFileQueryType::RankedByTextSearch => 12,
            PublishedFileQueryType::RankedByPlaytimeTrend => 13,
            PublishedFileQueryType::RankedByTotalPlaytime => 14,
            PublishedFileQueryType::RankedByAveragePlaytimeTrend => 15,
            PublishedFileQueryType::RankedByLifetimeAveragePlaytime => 16,
            PublishedFileQueryType::RankedByPlaytimeSessionsTrend => 17,
            PublishedFileQueryType::RankedByLifetimePlaytimeSessions => 18,
            PublishedFileQueryType::RankedByInappropriateContentRating => 19,
            PublishedFileQueryType::RankedByBanContentCheck => 20,
            PublishedFileQueryType::RankedByLastUpdatedDate => 21,
        }
    }

    /// The number that stands for this value in a request, in base ten.
    pub fn to_string(&self) -> (text: String)
        ensures
            text@ == decimal_text(self.spec_number() as nat),
    {
        let mut text = String::new();
        push_decimal(&mut text, self.number());
        text
    }
}

/// Represents the matching file type for published file information.
#[derive(Debug, Clone, Copy, PartialEq, Eq, Structural)]
pub enum PublishedFileInfoMatchingFileType {
    /// Items.
    Items,
    /// A collection of Workshop items.
    Collections,
    /// Artwork.
    Art,
    /// Videos.
    Videos,
    /// Screenshots
    Screenshots,
    /// Items that can be put inside a collection.
    CollectionEligible,
    /// Unused.
    Games,
    /// Unused.
    Software,
    /// Unused.
    Concepts,
    /// Unused.
    GreenlightItems,
    /// Guides.
    AllGuides,
    /// Steam web guide.
    WebGuides,
    /// Application integrated guide.
    IntegratedGuides,
    /// Usable in-game.
    UsableInGame,
    /// Workshop merchandise meant to be voted on for the purpose of being sold
    Merch,
    /// Steam Controller bindings.
    ControllerBindings,
    /// Used internally.
    SteamworksAccessInvites,
    /// Workshop items that can be sold in-game.
    ItemsMtx,
    /// Workshop items that can be used right away by the user.
    ItemsReadyToUse,
    /// Workshop showcase.
    WorkshopShowcase,
    /// Managed completely by the game, not the user, and not shown on the web.
    GameManagedItems,
}

impl PublishedFileInfoMatchingFileType {
    /// The number that stands for this value in a request.
    pub open spec fn spec_number(self) -> u64 {
        match self {
            PublishedFileInfoMatchingFileType::Items => 0,
            PublishedFileInfoMatchingFileType::Collections => 1,
            PublishedFileInfoMatchingFileType::Art => 2,
            PublishedFileInfoMatchingFileType::Videos => 3,
            PublishedFileInfoMatchingFileType::Screenshots => 4,
            PublishedFileInfoMatchingFileType::CollectionEligible => 5,
            PublishedFileInfoMatchingFileType::Games => 6,
            PublishedFileInfoMatchingFileType::Software => 7,
            PublishedFileInfoMatchingFileType::Concepts => 8,
            PublishedFileInfoMatchingFileType::GreenlightItems => 9,
            PublishedFileInfoMatchingFileType::AllGuides => 10,
            PublishedFileInfoMatchingFileType::WebGuides => 11,
            PublishedFileInfoMatchingFileType::IntegratedGuides => 12,
            PublishedFileInfoMatchingFileType::UsableInGame => 13,
            PublishedFileInfoMatchingFileType::Merch => 14,
            PublishedFileInfoMatchingFileType::ControllerBindings => 15,
            PublishedFileInfoMatchingFileType::SteamworksAccessInvites => 16,
            PublishedFileInfoMatchingFileType::ItemsMtx => 17,
            PublishedFileInfoMatchingFileType::ItemsReadyToUse => 18,
            PublishedFileInfoMatchingFileType::WorkshopShowcase => 19,
            PublishedFileInfoMatchingFileType::GameManagedItems => 20,
        }
    }

    /// The number that stands for this value in a request.
    #[verifier::when_used_as_spec(spec_number)]
    pub fn number(self) -> (n: u64)
        ensures
            n == self.spec_number(),
    {
        match self {
            PublishedFileInfoMatchingFileType::Items => 0,
            PublishedFileInfoMatchingFileType::Collections => 1,
            PublishedFileInfoMatchingFileType::Art => 2,
            PublishedFileInfoMatchingFileType::Videos => 3,
            PublishedFileInfoMatchingFileType::Screenshots => 4,
            PublishedFileInfoMatchingFileType::CollectionEligible => 5,
            PublishedFileInfoMatchingFileType::Games => 6,
            PublishedFileInfoMatchingFileType::Software => 7,
            PublishedFileInfoMatchingFileType::Concepts => 8,
            PublishedFileInfoMatchingFileType::GreenlightItems => 9,
            PublishedFileInfoMatchingFileType::AllGuides => 10,
            PublishedFileInfoMatchingFileType::WebGuides => 11,
            PublishedFileInfoMatchingFileType::IntegratedGuides => 12,
            PublishedFileInfoMatchingFileType::UsableInGame => 13,
            PublishedFileInfoMatchingFileType::Merch => 14,
            PublishedFileInfoMatchingFileType::ControllerBindings => 15,
            PublishedFileInfoMatchingFileType::SteamworksAccessInvites => 16,
            PublishedFileInfoMatchingFileType::ItemsMtx => 17,
            PublishedFileInfoMatchingFileType::ItemsReadyToUse => 18,
            PublishedFileInfoMatchingFileType::WorkshopShowcase => 19,
            PublishedFileInfoMatchingFileType::GameManagedItems => 20,
        }
    }

    /// The number that stands for this value in a request, in base ten.
    pub fn to_string(&self) -> (text: String)
        ensures
            text@ == decimal_text(self.spec_number() as nat),
    {
        let mut text = String::new();
        push_decimal(&mut text, self.number());
        text
    }
}

/// Represents a preview associated with a file.
#[derive(Debug, Clone)]
pub struct Preview {
    /// The ID of the preview.
    pub preview_id: String,
    /// The sort order of the preview.
    pub sort_order: u16,
    /// The URL of the preview, if available.
    pub url: Option<String>,
    /// The size of the preview, if available.
    pub size: Option<u32>,
    /// The filename of the preview, if available.
    pub file_name: Option<String>,
    /// The type of the preview.
    pub preview_type: u8,
}

/// Represents a tag associated with a file.
#[derive(Debug, Clone)]
pub struct Tag {
    /// The tag string.
    pub tag: String,
    /// The display name of the tag.
    pub display_name: String,
}

/// Represents playtime statistics.
#[derive(Debug, Clone)]
pub struct PlaytimeStats {
    /// The total playtime in seconds.
    pub playtime_seconds: String,
    /// The number of play sessions.
    pub num_sessions: String,
}

} // verus!
