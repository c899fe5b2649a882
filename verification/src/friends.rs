//! Types for the friends endpoints: friends lists, friend requests, and
//! the source a friend request came from.

use vstd::prelude::*;

verus! {

/// One user of a friends list, with select presence information.
#[allow(missing_docs)]
#[derive(Clone, Debug)]
pub struct FriendUserInformation {
    pub id: u64,
    pub name: String,
    pub display_name: String,
}

/// The friends list response: the friends of the requested user.
#[derive(Clone, Debug)]
pub struct FriendsListResponse {
    /// The friends found.
    pub data: Vec<FriendUserInformation>,
}

/// Represents the source of a friend request or friend connection.
#[derive(Clone, Copy, Debug, PartialEq, Eq, Structural)]
pub enum OriginSource {
    /// Source is unknown or not specified.
    Unknown,
    /// Friend was found through player search.
    PlayerSearch,
    /// Friend was added via QR code.
    QrCode,
    /// Friend was met in-game.
    InGame,
    /// Friend was found through user profile.
    UserProfile,
    /// Friend was imported from QQ contacts.
    QqContactImporter,
    /// Friend was imported from WeChat contacts.
    WeChatContactImporter,
    /// Friend was added through profile sharing.
    ProfileShare,
    /// Friend was imported from phone contacts.
    PhoneContactImporter,
    /// Friend was suggested through recommendations.
    FriendRecommendations,
}

/// The origin source that the service encodes as `value`; unassigned
/// numbers fall back to the unknown source.
pub open spec fn spec_origin_source_from_u8(value: u8) -> OriginSource {
    if value == 1 {
        OriginSource::PlayerSearch
    } else if value == 2 {
        OriginSource::QrCode
    } else if value == 3 {
        OriginSource::InGame
    } else if value == 4 {
        OriginSource::UserProfile
    } else if value == 5 {
        OriginSource::QqContactImporter
    } else if value == 6 {
        OriginSource::WeChatContactImporter
    } else if value == 7 {
        OriginSource::ProfileShare
    } else if value == 8 {
        OriginSource::PhoneContactImporter
    } else if value == 9 {
        OriginSource::FriendRecommendations
    } else {
        OriginSource::Unknown
    }
}

impl Default for OriginSource {
    /// The fallback source: unknown.
    fn default() -> (r: OriginSource)
        ensures
            r == OriginSource::Unknown,
    {
        OriginSource::Unknown
    }
}

impl From<u8> for OriginSource {
    /// Decodes the numeric origin source used by the service.
    fn from(value: u8) -> (r: OriginSource) {
        match value {
            1 => OriginSource::PlayerSearch,
            2 => OriginSource::QrCode,
            3 => OriginSource::InGame,
            4 => OriginSource::UserProfile,
            5 => OriginSource::QqContactImporter,
            6 => OriginSource::WeChatContactImporter,
            7 => OriginSource::ProfileShare,
            8 => OriginSource::PhoneContactImporter,
            9 => OriginSource::FriendRecommendations,
            _ => OriginSource::Unknown,
        }
    }
}

impl vstd::std_specs::convert::FromSpecImpl<u8> for OriginSource {
    open spec fn obeys_from_spec() -> bool {
        true
    }

    open spec fn from_spec(value: u8) -> OriginSource {
        spec_origin_source_from_u8(value)
    }
}

/// The metadata of one friend request.
#[derive(Clone, Debug)]
pub struct RequestInfo {
    /// When the request was sent, in ISO 8601 format.
    pub sent_at: String,
    /// The id of the user who sent the request.
    pub sender_id: u64,
    /// The universe the request was sent from, when sent in-game.
    pub source_universe_id: u64,
    /// The source the request came from.
    pub origin_source_type: OriginSource,
}

/// One entry of the friend requests response.
#[allow(missing_docs)]
#[derive(Clone, Debug)]
pub struct RequestResponseData {
    /// The metadata of the friend request itself.
    pub request_info: RequestInfo,
    pub mutual_friends_list: Vec<String>,
    pub id: u64,
    pub name: String,
    pub display_name: String,
}

/// One page of friend requests, with the cursors around it.
#[allow(missing_docs)]
#[derive(Clone, Debug)]
pub struct FriendRequestsResponse {
    pub previous_page_cursor: Option<String>,
    pub next_page_cursor: Option<String>,
    pub data: Vec<RequestResponseData>,
}

} // verus!
