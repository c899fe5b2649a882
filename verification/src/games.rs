//! Types for the games endpoints: the games owned by a user or a group.

use vstd::prelude::*;

verus! {

use crate::catalog::catalog_types::{AssetType, CreatorType};

/// The owner of a game: a user or a group, by id.
#[derive(Clone, Copy, Debug, PartialEq, Eq, Structural)]
pub struct CreatorInformation {
    /// The user or group id of the creator.
    pub id: u64,
    /// Whether the creator is a user or a group.
    pub creator_type: CreatorType,
}

/// The root place of a game.
#[derive(Clone, Copy, Debug, PartialEq, Eq, Structural)]
pub struct RootPlaceInformation {
    /// The place id of the game.
    pub id: u64,
    /// The asset type of the root place.
    pub root_place_type: AssetType,
}

/// One game of a games listing.
#[derive(Clone, Debug)]
pub struct GameInformationV2 {
    /// The id of the game.
    pub id: u64,
    /// The name of the place.
    pub name: String,
    /// The description of the place, when one is set.
    pub description: Option<String>,
    /// The owner of the game.
    pub creator: CreatorInformation,
    /// The root place of the game.
    pub root_place: RootPlaceInformation,
    /// When the game was created, in ISO 8601 format.
    pub created: String,
    /// When the game was last updated, in ISO 8601 format.
    pub updated: String,
    /// How many visits the place has.
    pub place_visits: u64,
}

/// One page of a games listing, with the cursors around it.
#[allow(missing_docs)]
#[derive(Clone, Debug)]
pub struct GamesResponseV2 {
    pub previous_page_cursor: Option<String>,
    pub next_page_cursor: Option<String>,
    pub data: Vec<GameInformationV2>,
}

} // verus!
