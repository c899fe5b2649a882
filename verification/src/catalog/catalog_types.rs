//! Types related to the avatar catalog: item classifications, search
//! query parameters, and the verified query-string builder.

use vstd::prelude::*;
use vstd::string::*;

verus! {

use crate::RoboatError;
use crate::text::{dec_str, str_eq, u64_to_string};
use crate::catalog::request_types::ItemDetailsRaw;

/// An enum representing the overall high level type of the item (Asset or
/// Bundle).
#[derive(Clone, Copy, Debug, PartialEq, Eq, Structural)]
pub enum ItemType {
    /// An individual asset.
    Asset,
    /// A bundle (such as an animation package).
    Bundle,
}

/// An enum representing the type of the asset (hat, shirt, gear).
#[allow(missing_docs)]
#[derive(Clone, Copy, Debug, PartialEq, Eq, Structural)]
pub enum AssetType {
    Image,
    TShirt,
    Audio,
    Mesh,
    Lua,
    Hat,
    Place,
    Model,
    Shirt,
    Pants,
    Decal,
    Head,
    Face,
    Gear,
    Badge,
    Animation,
    Arms,
    Legs,
    Torso,
    RightArm,
    LeftArm,
    LeftLeg,
    RightLeg,
    Package,
    GamePass,
    Plugin,
    MeshPart,
    HairAccessory,
    FaceAccessory,
    NeckAccessory,
    ShoulderAccessory,
    FrontAccessory,
    BackAccessory,
    WaistAccessory,
    ClimbAnimation,
    DeathAnimation,
    FallAnimation,
    IdleAnimation,
    JumpAnimation,
    RunAnimation,
    SwimAnimation,
    WalkAnimation,
    PoseAnimation,
    EarAccessory,
    EyeAccessory,
    EmoteAnimation,
    Video,
    TShirtAccessory,
    ShirtAccessory,
    PantsAccessory,
    JacketAccessory,
    SweaterAccessory,
    ShortsAccessory,
    LeftShoeAccessory,
    RightShoeAccessory,
    DressSkirtAccessory,
    FontFamily,
    EyebrowAccessory,
    EyelashAccessory,
    MoodAnimation,
    DynamicHead,
}

/// The asset type that the remote service encodes as `v`, if any.
pub open spec fn spec_asset_type_from_u64(v: u64) -> Option<AssetType> {
    if v == 1 { Some(AssetType::Image) }
    else if v == 2 { Some(AssetType::TShirt) }
    else if v == 3 { Some(AssetType::Audio) }
    else if v == 4 { Some(AssetType::Mesh) }
    else if v == 5 { Some(AssetType::Lua) }
    else if v == 8 { Some(AssetType::Hat) }
    else if v == 9 { Some(AssetType::Place) }
    else if v == 10 { Some(AssetType::Model) }
    else if v == 11 { Some(AssetType::Shirt) }
    else if v == 12 { Some(AssetType::Pants) }
    else if v == 13 { Some(AssetType::Decal) }
    else if v == 17 { Some(AssetType::Head) }
    else if v == 18 { Some(AssetType::Face) }
    else if v == 19 { Some(AssetType::Gear) }
    else if v == 21 { Some(AssetType::Badge) }
    else if v == 24 { Some(AssetType::Animation) }
    else if v == 25 { Some(AssetType::Arms) }
    else if v == 26 { Some(AssetType::Legs) }
    else if v == 27 { Some(AssetType::Torso) }
    else if v == 28 { Some(AssetType::RightArm) }
    else if v == 29 { Some(AssetType::LeftArm) }
    else if v == 30 { Some(AssetType::LeftLeg) }
    else if v == 31 { Some(AssetType::RightLeg) }
    else if v == 32 { Some(AssetType::Package) }
    else if v == 34 { Some(AssetType::GamePass) }
    else if v == 38 { Some(AssetType::Plugin) }
    else if v == 40 { Some(AssetType::MeshPart) }
    else if v == 41 { Some(AssetType::HairAccessory) }
    else if v == 42 { Some(AssetType::FaceAccessory) }
    else if v == 43 { Some(AssetType::NeckAccessory) }
    else if v == 44 { Some(AssetType::ShoulderAccessory) }
    else if v == 45 { Some(AssetType::FrontAccessory) }
    else if v == 46 { Some(AssetType::BackAccessory) }
    else if v == 47 { Some(AssetType::WaistAccessory) }
    else if v == 48 { Some(AssetType::ClimbAnimation) }
    else if v == 49 { Some(AssetType::DeathAnimation) }
    else if v == 50 { Some(AssetType::FallAnimation) }
    else if v == 51 { Some(AssetType::IdleAnimation) }
    else if v == 52 { Some(AssetType::JumpAnimation) }
    else if v == 53 { Some(AssetType::RunAnimation) }
    else if v == 54 { Some(AssetType::SwimAnimation) }
    else if v == 55 { Some(AssetType::WalkAnimation) }
    else if v == 56 { Some(AssetType::PoseAnimation) }
    else if v == 57 { Some(AssetType::EarAccessory) }
    else if v == 58 { Some(AssetType::EyeAccessory) }
    else if v == 61 { Some(AssetType::EmoteAnimation) }
    else if v == 62 { Some(AssetType::Video) }
    else if v == 64 { Some(AssetType::TShirtAccessory) }
    else if v == 65 { Some(AssetType::ShirtAccessory) }
    else if v == 66 { Some(AssetType::PantsAccessory) }
    else if v == 67 { Some(AssetType::JacketAccessory) }
    else if v == 68 { Some(AssetType::SweaterAccessory) }
    else if v == 69 { Some(AssetType::ShortsAccessory) }
    else if v == 70 { Some(AssetType::LeftShoeAccessory) }
    else if v == 71 { Some(AssetType::RightShoeAccessory) }
    else if v == 72 { Some(AssetType::DressSkirtAccessory) }
    else if v == 73 { Some(AssetType::FontFamily) }
    else if v == 76 { Some(AssetType::EyebrowAccessory) }
    else if v == 77 { Some(AssetType::EyelashAccessory) }
    else if v == 78 { Some(AssetType::MoodAnimation) }
    else if v == 79 { Some(AssetType::DynamicHead) }
    else { None }
}

impl AssetType {
    /// Decodes the numeric asset type used by the item details endpoint;
    /// an unassigned number is a malformed response.
    pub fn try_from(value: u64) -> (r: Result<AssetType, RoboatError>)
        ensures
            match spec_asset_type_from_u64(value) {
                Some(t) => r == Ok::<AssetType, RoboatError>(t),
                None => r == Err::<AssetType, RoboatError>(RoboatError::MalformedResponse),
            },
    {
        match value {
            1 => Ok(AssetType::Image),
            2 => Ok(AssetType::TShirt),
            3 => Ok(AssetType::Audio),
            4 => Ok(AssetType::Mesh),
            5 => Ok(AssetType::Lua),
            8 => Ok(AssetType::Hat),
            9 => Ok(AssetType::Place),
            10 => Ok(AssetType::Model),
            11 => Ok(AssetType::Shirt),
            12 => Ok(AssetType::Pants),
            13 => Ok(AssetType::Decal),
            17 => Ok(AssetType::Head),
            18 => Ok(AssetType::Face),
            19 => Ok(AssetType::Gear),
            21 => Ok(AssetType::Badge),
            24 => Ok(AssetType::Animation),
            25 => Ok(AssetType::Arms),
            26 => Ok(AssetType::Legs),
            27 => Ok(AssetType::Torso),
            28 => Ok(AssetType::RightArm),
            29 => Ok(AssetType::LeftArm),
            30 => Ok(AssetType::LeftLeg),
            31 => Ok(AssetType::RightLeg),
            32 => Ok(AssetType::Package),
            34 => Ok(AssetType::GamePass),
            38 => Ok(AssetType::Plugin),
            40 => Ok(AssetType::MeshPart),
            41 => Ok(AssetType::HairAccessory),
            42 => Ok(AssetType::FaceAccessory),
            43 => Ok(AssetType::NeckAccessory),
            44 => Ok(AssetType::ShoulderAccessory),
            45 => Ok(AssetType::FrontAccessory),
            46 => Ok(AssetType::BackAccessory),
            47 => Ok(AssetType::WaistAccessory),
            48 => Ok(AssetType::ClimbAnimation),
            49 => Ok(AssetType::DeathAnimation),
            50 => Ok(AssetType::FallAnimation),
            51 => Ok(AssetType::IdleAnimation),
            52 => Ok(AssetType::JumpAnimation),
            53 => Ok(AssetType::RunAnimation),
            54 => Ok(AssetType::SwimAnimation),
            55 => Ok(AssetType::WalkAnimation),
            56 => Ok(AssetType::PoseAnimation),
            57 => Ok(AssetType::EarAccessory),
            58 => Ok(AssetType::EyeAccessory),
            61 => Ok(AssetType::EmoteAnimation),
            62 => Ok(AssetType::Video),
            64 => Ok(AssetType::TShirtAccessory),
            65 => Ok(AssetType::ShirtAccessory),
            66 => Ok(AssetType::PantsAccessory),
            67 => Ok(AssetType::JacketAccessory),
            68 => Ok(AssetType::SweaterAccessory),
            69 => Ok(AssetType::ShortsAccessory),
            70 => Ok(AssetType::LeftShoeAccessory),
            71 => Ok(AssetType::RightShoeAccessory),
            72 => Ok(AssetType::DressSkirtAccessory),
            73 => Ok(AssetType::FontFamily),
            76 => Ok(AssetType::EyebrowAccessory),
            77 => Ok(AssetType::EyelashAccessory),
            78 => Ok(AssetType::MoodAnimation),
            79 => Ok(AssetType::DynamicHead),
            _ => Err(RoboatError::MalformedResponse),
        }
    }
}

/// An enum representing the type of bundle (BodyParts or AvatarAnimations).
#[allow(missing_docs)]
#[derive(Clone, Copy, Debug, PartialEq, Eq, Structural)]
pub enum BundleType {
    BodyParts,
    AvatarAnimations,
}

/// The bundle type that the remote service encodes as `v`, if any.
pub open spec fn spec_bundle_type_from_u64(v: u64) -> Option<BundleType> {
    if v == 1 {
        Some(BundleType::BodyParts)
    } else if v == 2 {
        Some(BundleType::AvatarAnimations)
    } else {
        None
    }
}

impl BundleType {
    /// Decodes the numeric bundle type used by the item details endpoint;
    /// an unassigned number is a malformed response.
    pub fn try_from(value: u64) -> (r: Result<BundleType, RoboatError>)
        ensures
            match spec_bundle_type_from_u64(value) {
                Some(t) => r == Ok::<BundleType, RoboatError>(t),
                None => r == Err::<BundleType, RoboatError>(RoboatError::MalformedResponse),
            },
    {
        match value {
            1 => Ok(BundleType::BodyParts),
            2 => Ok(BundleType::AvatarAnimations),
            _ => Err(RoboatError::MalformedResponse),
        }
    }
}

/// An enum representing the genre of an item (war, funny). Only used when
/// returning info from item details.
#[allow(missing_docs)]
#[derive(Clone, Copy, Debug, PartialEq, Eq, Structural)]
pub enum Genre {
    All,
    Tutorial,
    Scary,
    TownAndCity,
    War,
    Funny,
    Fantasy,
    Adventure,
    SciFi,
    Pirate,
    FPS,
    RPG,
    Sports,
    Ninja,
    WildWest,
}

/// An enum representing the sale location type of an asset. Only used when
/// returning info from item details.
#[allow(missing_docs)]
#[derive(Clone, Copy, Debug, PartialEq, Eq, Structural)]
pub enum SaleLocationType {
    NotApplicable,
    Game,
    ExperiencesDevApiOnly,
    ShopAndAllExperiences,
}

/// The sale location type that the item details endpoint spells `data`,
/// if any.
pub open spec fn spec_sale_location_type_from_str(data: Seq<char>) -> Option<SaleLocationType> {
    if data == "NotApplicable"@ {
        Some(SaleLocationType::NotApplicable)
    } else if data == "Game"@ {
        Some(SaleLocationType::Game)
    } else if data == "ExperiencesDevApiOnly"@ {
        Some(SaleLocationType::ExperiencesDevApiOnly)
    } else if data == "ShopAndAllExperiences"@ {
        Some(SaleLocationType::ShopAndAllExperiences)
    } else {
        None
    }
}

impl SaleLocationType {
    /// Decodes the sale location name used by the item details endpoint.
    pub fn from_str(data: &str) -> (r: Option<SaleLocationType>)
        ensures
            r == spec_sale_location_type_from_str(data@),
    {
        if str_eq(data, "NotApplicable") {
            Some(SaleLocationType::NotApplicable)
        } else if str_eq(data, "Game") {
            Some(SaleLocationType::Game)
        } else if str_eq(data, "ExperiencesDevApiOnly") {
            Some(SaleLocationType::ExperiencesDevApiOnly)
        } else if str_eq(data, "ShopAndAllExperiences") {
            Some(SaleLocationType::ShopAndAllExperiences)
        } else {
            None
        }
    }

    /// The spelling of this sale location type on the wire.
    pub open spec fn spec_as_str(self) -> Seq<char> {
        match self {
            SaleLocationType::NotApplicable => "NotApplicable"@,
            SaleLocationType::Game => "Game"@,
            SaleLocationType::ExperiencesDevApiOnly => "ExperiencesDevApiOnly"@,
            SaleLocationType::ShopAndAllExperiences => "ShopAndAllExperiences"@,
        }
    }

    /// The name of this sale location type as the endpoint spells it.
    pub fn as_str(self) -> (r: &'static str)
        ensures
            r@ == self.spec_as_str(),
    {
        match self {
            SaleLocationType::NotApplicable => "NotApplicable",
            SaleLocationType::Game => "Game",
            SaleLocationType::ExperiencesDevApiOnly => "ExperiencesDevApiOnly",
            SaleLocationType::ShopAndAllExperiences => "ShopAndAllExperiences",
        }
    }
}

/// The status of an item (Sale, Exclusive).
#[allow(missing_docs)]
#[derive(Clone, Copy, Debug, PartialEq, Eq, Structural)]
pub enum ItemStatus {
    New,
    Sale,
    XboxExclusive,
    AmazonExclusive,
    GooglePlayExclusive,
    IosExclusive,
    SaleTimer,
}

/// Restriction on an item (ThirteenPlus, Limited).
#[allow(missing_docs)]
#[derive(Clone, Copy, Debug, PartialEq, Eq, Structural)]
pub enum ItemRestriction {
    ThirteenPlus,
    LimitedUnique,
    Limited,
    Rthro,
    /// Used only for "new" limiteds (including ugc limiteds).
    Collectible,
}

/// The price status of an item. Only applies to items not on sale (Free,
/// Offsale).
#[allow(missing_docs)]
#[derive(Clone, Copy, Debug, PartialEq, Eq, Structural)]
pub enum PriceStatus {
    Free,
    Offsale,
    NoResellers,
}

/// The broad category of an item for use in search (Clothing,
/// Collectibles).
#[allow(missing_docs)]
#[derive(Clone, Copy, Debug, PartialEq, Eq, Structural)]
pub enum Category {
    Featured,
    All,
    Collectibles,
    Clothing,
    BodyParts,
    Gear,
    Accessories,
    AvatarAnimations,
    CommunityCreations,
}

impl Category {
    /// The number the search endpoint uses for this category.
    pub open spec fn spec_as_u8(self) -> u8 {
        match self {
            Category::Featured => 0,
            Category::All => 1,
            Category::Collectibles => 2,
            Category::Clothing => 3,
            Category::BodyParts => 4,
            Category::Gear => 5,
            Category::Accessories => 11,
            Category::AvatarAnimations => 12,
            Category::CommunityCreations => 13,
        }
    }

    /// Encodes this category for the search query string.
    pub fn as_u8(&self) -> (r: u8)
        ensures
            r == self.spec_as_u8(),
    {
        match self {
            Category::Featured => 0,
            Category::All => 1,
            Category::Collectibles => 2,
            Category::Clothing => 3,
            Category::BodyParts => 4,
            Category::Gear => 5,
            Category::Accessories => 11,
            Category::AvatarAnimations => 12,
            Category::CommunityCreations => 13,
        }
    }
}

/// A time period for when a sort applies.
#[allow(missing_docs)]
#[derive(Clone, Copy, Debug, PartialEq, Eq, Structural)]
pub enum SortAggregation {
    PastDay,
    PastWeek,
    PastMonth,
    AllTime,
}

impl SortAggregation {
    /// The number the search endpoint uses for this aggregation period.
    pub open spec fn spec_as_u8(self) -> u8 {
        match self {
            SortAggregation::PastDay => 0,
            SortAggregation::PastWeek => 1,
            SortAggregation::PastMonth => 2,
            SortAggregation::AllTime => 3,
        }
    }

    /// Encodes this aggregation period for the search query string.
    pub fn as_u8(&self) -> (r: u8)
        ensures
            r == self.spec_as_u8(),
    {
        match self {
            SortAggregation::PastDay => 0,
            SortAggregation::PastWeek => 1,
            SortAggregation::PastMonth => 2,
            SortAggregation::AllTime => 3,
        }
    }
}

/// Sorting types that can be used in an item search.
#[allow(missing_docs)]
#[derive(Clone, Copy, Debug, PartialEq, Eq, Structural)]
pub enum SortType {
    Relevance,
    Favorited,
    Sales,
    Updated,
    PriceAsc,
    PriceDesc,
}

impl SortType {
    /// The number the search endpoint uses for this sort type.
    pub open spec fn spec_as_u8(self) -> u8 {
        match self {
            SortType::Relevance => 0,
            SortType::Favorited => 1,
            SortType::Sales => 2,
            SortType::Updated => 3,
            SortType::PriceAsc => 4,
            SortType::PriceDesc => 5,
        }
    }

    /// Encodes this sort type for the search query string.
    pub fn as_u8(&self) -> (r: u8)
        ensures
            r == self.spec_as_u8(),
    {
        match self {
            SortType::Relevance => 0,
            SortType::Favorited => 1,
            SortType::Sales => 2,
            SortType::Updated => 3,
            SortType::PriceAsc => 4,
            SortType::PriceDesc => 5,
        }
    }
}

/// Sort between different sale types of assets, used when searching.
#[allow(missing_docs)]
#[derive(Clone, Copy, Debug, PartialEq, Eq, Structural)]
pub enum SalesTypeFilter {
    All,
    Collectibles,
    Premium,
}

impl SalesTypeFilter {
    /// The number the search endpoint uses for this sale type filter.
    pub open spec fn spec_as_u8(self) -> u8 {
        match self {
            SalesTypeFilter::All => 1,
            SalesTypeFilter::Collectibles => 2,
            SalesTypeFilter::Premium => 3,
        }
    }

    /// Encodes this sale type filter for the search query string.
    pub fn as_u8(&self) -> (r: u8)
        ensures
            r == self.spec_as_u8(),
    {
        match self {
            SalesTypeFilter::All => 1,
            SalesTypeFilter::Collectibles => 2,
            SalesTypeFilter::Premium => 3,
        }
    }
}

/// Limit the amount of results shown by the API when searching.
///
/// This is a special limit that does not match the universal
/// [`crate::Limit`].
#[allow(missing_docs)]
#[derive(Clone, Copy, Debug, PartialEq, Eq, Structural)]
pub enum CatalogQueryLimit {
    Ten,
    TwentyEight,
    Thirty,
    Fifty,
    Sixty,
    Hundred,
    HundredTwenty,
}

impl CatalogQueryLimit {
    /// The number of results this limit stands for.
    pub open spec fn spec_as_u8(self) -> u8 {
        match self {
            CatalogQueryLimit::Ten => 10,
            CatalogQueryLimit::TwentyEight => 28,
            CatalogQueryLimit::Thirty => 30,
            CatalogQueryLimit::Fifty => 50,
            CatalogQueryLimit::Sixty => 60,
            CatalogQueryLimit::Hundred => 100,
            CatalogQueryLimit::HundredTwenty => 120,
        }
    }

    /// Encodes this limit for the search query string.
    pub fn as_u8(&self) -> (r: u8)
        ensures
            r == self.spec_as_u8(),
    {
        match self {
            CatalogQueryLimit::Ten => 10,
            CatalogQueryLimit::TwentyEight => 28,
            CatalogQueryLimit::Thirty => 30,
            CatalogQueryLimit::Fifty => 50,
            CatalogQueryLimit::Sixty => 60,
            CatalogQueryLimit::Hundred => 100,
            CatalogQueryLimit::HundredTwenty => 120,
        }
    }
}

/// A subcategory for items, used when searching.
#[allow(missing_docs)]
#[derive(Clone, Copy, Debug, PartialEq, Eq, Structural)]
pub enum Subcategory {
    Featured,
    All,
    Collectibles,
    Clothing,
    BodyParts,
    Gear,
    Hats,
    Faces,
    Shirts,
    TShirts,
    Pants,
    Heads,
    Accessories,
    HairAccessories,
    FaceAccessories,
    NeckAccessories,
    ShoulderAccessories,
    FrontAccessories,
    BackAccessories,
    WaistAccessories,
    AvatarAnimations,
    Bundles,
    AnimationBundles,
    EmoteAnimations,
    CommunityCreations,
    Melee,
    Ranged,
    Explosive,
    PowerUp,
    Navigation,
    Musical,
    Social,
    Building,
    Transport,
}

impl Subcategory {
    /// The number the search endpoint uses for this subcategory.
    pub open spec fn spec_as_u8(self) -> u8 {
        match self {
            Subcategory::Featured => 0,
            Subcategory::All => 1,
            Subcategory::Collectibles => 2,
            Subcategory::Clothing => 3,
            Subcategory::BodyParts => 4,
            Subcategory::Gear => 5,
            Subcategory::Hats => 9,
            Subcategory::Faces => 10,
            Subcategory::Shirts => 12,
            Subcategory::TShirts => 13,
            Subcategory::Pants => 14,
            Subcategory::Heads => 15,
            Subcategory::Accessories => 19,
            Subcategory::HairAccessories => 20,
            Subcategory::FaceAccessories => 21,
            Subcategory::NeckAccessories => 22,
            Subcategory::ShoulderAccessories => 23,
            Subcategory::FrontAccessories => 24,
            Subcategory::BackAccessories => 25,
            Subcategory::WaistAccessories => 26,
            Subcategory::AvatarAnimations => 27,
            Subcategory::Bundles => 37,
            Subcategory::AnimationBundles => 38,
            Subcategory::EmoteAnimations => 39,
            Subcategory::CommunityCreations => 40,
            Subcategory::Melee => 41,
            Subcategory::Ranged => 42,
            Subcategory::Explosive => 43,
            Subcategory::PowerUp => 44,
            Subcategory::Navigation => 45,
            Subcategory::Musical => 46,
            Subcategory::Social => 47,
            Subcategory::Building => 48,
            Subcategory::Transport => 49,
        }
    }

    /// Encodes this subcategory for the search query string.
    pub fn as_u8(&self) -> (r: u8)
        ensures
            r == self.spec_as_u8(),
    {
        match self {
            Subcategory::Featured => 0,
            Subcategory::All => 1,
            Subcategory::Collectibles => 2,
            Subcategory::Clothing => 3,
            Subcategory::BodyParts => 4,
            Subcategory::Gear => 5,
            Subcategory::Hats => 9,
            Subcategory::Faces => 10,
            Subcategory::Shirts => 12,
            Subcategory::TShirts => 13,
            Subcategory::Pants => 14,
            Subcategory::Heads => 15,
            Subcategory::Accessories => 19,
            Subcategory::HairAccessories => 20,
            Subcategory::FaceAccessories => 21,
            Subcategory::NeckAccessories => 22,
            Subcategory::ShoulderAccessories => 23,
            Subcategory::FrontAccessories => 24,
            Subcategory::BackAccessories => 25,
            Subcategory::WaistAccessories => 26,
            Subcategory::AvatarAnimations => 27,
            Subcategory::Bundles => 37,
            Subcategory::AnimationBundles => 38,
            Subcategory::EmoteAnimations => 39,
            Subcategory::CommunityCreations => 40,
            Subcategory::Melee => 41,
            Subcategory::Ranged => 42,
            Subcategory::Explosive => 43,
            Subcategory::PowerUp => 44,
            Subcategory::Navigation => 45,
            Subcategory::Musical => 46,
            Subcategory::Social => 47,
            Subcategory::Building => 48,
            Subcategory::Transport => 49,
        }
    }
}

/// The type of a creator (User, Group).
#[allow(missing_docs)]
#[derive(Clone, Copy, Debug, PartialEq, Eq, Structural)]
pub enum CreatorType {
    User,
    Group,
}

impl CreatorType {
    /// The number the search endpoint uses for this creator type.
    pub open spec fn spec_as_u8(self) -> u8 {
        match self {
            CreatorType::User => 1,
            CreatorType::Group => 2,
        }
    }

    /// Encodes this creator type for the search query string.
    pub fn as_u8(&self) -> (r: u8)
        ensures
            r == self.spec_as_u8(),
    {
        match self {
            CreatorType::User => 1,
            CreatorType::Group => 2,
        }
    }
}

/// The allowed limits in a catalog item details query.
#[allow(missing_docs)]
#[derive(Clone, Copy, Debug, PartialEq, Eq, Structural)]
pub enum QueryLimit {
    Ten,
    TwentyEight,
    Thirty,
}

impl QueryLimit {
    /// The number of results this limit stands for.
    pub open spec fn spec_as_u8(self) -> u8 {
        match self {
            QueryLimit::Ten => 10,
            QueryLimit::TwentyEight => 28,
            QueryLimit::Thirty => 30,
        }
    }

    /// Encodes this limit for a details query.
    pub fn as_u8(&self) -> (r: u8)
        ensures
            r == self.spec_as_u8(),
    {
        match self {
            QueryLimit::Ten => 10,
            QueryLimit::TwentyEight => 28,
            QueryLimit::Thirty => 30,
        }
    }
}

/// These are only used when making a search query.
#[allow(missing_docs)]
#[derive(Clone, Copy, Debug, PartialEq, Eq, Structural)]
pub enum QueryGenre {
    TownAndCity,
    Medieval,
    SciFi,
    Fighting,
    Horror,
    Naval,
    Adventure,
    Sports,
    Comedy,
    Western,
    Military,
    Building,
    FPS,
    RPG,
}

impl QueryGenre {
    /// The number the search endpoint uses for this genre.
    pub open spec fn spec_as_u8(self) -> u8 {
        match self {
            QueryGenre::TownAndCity => 1,
            QueryGenre::Medieval => 2,
            QueryGenre::SciFi => 3,
            QueryGenre::Fighting => 4,
            QueryGenre::Horror => 5,
            QueryGenre::Naval => 6,
            QueryGenre::Adventure => 7,
            QueryGenre::Sports => 8,
            QueryGenre::Comedy => 9,
            QueryGenre::Western => 10,
            QueryGenre::Military => 11,
            QueryGenre::Building => 13,
            QueryGenre::FPS => 14,
            QueryGenre::RPG => 15,
        }
    }

    /// Encodes this genre for the search query string.
    pub fn as_u8(&self) -> (r: u8)
        ensures
            r == self.spec_as_u8(),
    {
        match self {
            QueryGenre::TownAndCity => 1,
            QueryGenre::Medieval => 2,
            QueryGenre::SciFi => 3,
            QueryGenre::Fighting => 4,
            QueryGenre::Horror => 5,
            QueryGenre::Naval => 6,
            QueryGenre::Adventure => 7,
            QueryGenre::Sports => 8,
            QueryGenre::Comedy => 9,
            QueryGenre::Western => 10,
            QueryGenre::Military => 11,
            QueryGenre::Building => 13,
            QueryGenre::FPS => 14,
            QueryGenre::RPG => 15,
        }
    }
}

/// Additional details for premium pricing.
#[derive(Clone, Copy, Debug, PartialEq, Eq, Structural)]
pub struct PremiumPricing {
    /// The discount percentage in the form of a value from 0-100.
    pub premium_discount_percentage: u64,
    /// The price of the item for premium users.
    pub premium_price_in_robux: u64,
}

/// Contains an item id and its type. Used as part of a parameter in the
/// item details call, and as part of a response in the catalog search.
#[derive(Clone, Copy, Debug, PartialEq, Eq, Structural)]
pub struct Item {
    /// The type of the item (Asset or Bundle).
    pub item_type: ItemType,
    /// The id of the item, or of the bundle.
    pub id: u64,
}

/// A query for an avatar catalog search.
#[derive(Clone, Debug, PartialEq, Eq)]
pub struct AvatarSearchQuery {
    /// Category must be filled to query more than one page.
    pub category: Option<Category>,
    /// Search by creator name. If `creator_type` is not provided, search
    /// is for users only.
    pub creator_name: Option<String>,
    /// Corresponds to a user id or group id depending on the creator type.
    /// Must be filled if `creator_type` is filled.
    pub creator_id: Option<u64>,
    /// Must be filled if `creator_id` is filled.
    pub creator_type: Option<CreatorType>,
    /// The genres of the item; keep in mind [`QueryGenre`] is different
    /// from [`Genre`].
    pub query_genres: Vec<QueryGenre>,
    /// The keyword to search for.
    pub keyword: Option<String>,
    /// Sorts the results by a specific metric.
    pub sort_aggregation: Option<SortAggregation>,
    /// Sorts the results in a specific order.
    pub sort_type: Option<SortType>,
    /// Subcategory must be filled to query more than one page.
    pub subcategory: Option<Subcategory>,
    /// The minimum price for each asset.
    pub min_price: Option<u32>,
    /// The maximum price for each asset.
    pub max_price: Option<u32>,
    /// The maximum assets the service should return per page.
    pub limit: Option<CatalogQueryLimit>,
    /// Sort between different sale types of assets.
    pub sales_type_filter: Option<SalesTypeFilter>,
}

/// The `category` fragment of a search query string, empty when unset.
pub open spec fn spec_category_param(q: AvatarSearchQuery) -> Seq<char> {
    match q.category {
        Some(category) => "category="@ + dec_str(category.spec_as_u8() as nat) + "&"@,
        None => Seq::<char>::empty(),
    }
}

/// The `creatorName` fragment of a search query string, empty when unset.
pub open spec fn spec_creator_name_param(q: AvatarSearchQuery) -> Seq<char> {
    match q.creator_name {
        Some(creator_name) => "creatorName="@ + creator_name@ + "&"@,
        None => Seq::<char>::empty(),
    }
}

/// The `creatorTargetId` fragment of a search query string, empty when
/// unset.
pub open spec fn spec_creator_id_param(q: AvatarSearchQuery) -> Seq<char> {
    match q.creator_id {
        Some(creator_id) => "creatorTargetId="@ + dec_str(creator_id as nat) + "&"@,
        None => Seq::<char>::empty(),
    }
}

/// The `creatorType` fragment of a search query string, empty when unset.
pub open spec fn spec_creator_type_param(q: AvatarSearchQuery) -> Seq<char> {
    match q.creator_type {
        Some(creator_type) => "creatorType="@ + dec_str(creator_type.spec_as_u8() as nat) + "&"@,
        None => Seq::<char>::empty(),
    }
}

/// The comma-terminated genre numbers of a search query, in order.
pub open spec fn spec_genre_list(genres: Seq<QueryGenre>) -> Seq<char>
    decreases genres.len(),
{
    if genres.len() == 0 {
        Seq::<char>::empty()
    } else {
        spec_genre_list(genres.drop_last()) + dec_str(genres.last().spec_as_u8() as nat) + ","@
    }
}

/// The `genre` fragment of a search query string, empty when no genres
/// are given.
pub open spec fn spec_genres_param(q: AvatarSearchQuery) -> Seq<char> {
    if q.query_genres@.len() == 0 {
        Seq::<char>::empty()
    } else {
        "genre="@ + spec_genre_list(q.query_genres@) + "&"@
    }
}

/// The `keyword` fragment of a search query string, empty when unset.
pub open spec fn spec_keyword_param(q: AvatarSearchQuery) -> Seq<char> {
    match q.keyword {
        Some(keyword) => "keyword="@ + keyword@ + "&"@,
        None => Seq::<char>::empty(),
    }
}

/// The `sortAggregation` fragment of a search query string, empty when
/// unset.
pub open spec fn spec_sort_aggregation_param(q: AvatarSearchQuery) -> Seq<char> {
    match q.sort_aggregation {
        Some(sort_aggregation) => "sortAggregation="@ + dec_str(
            sort_aggregation.spec_as_u8() as nat,
        ) + "&"@,
        None => Seq::<char>::empty(),
    }
}

/// The `sortType` fragment of a search query string, empty when unset.
pub open spec fn spec_sort_type_param(q: AvatarSearchQuery) -> Seq<char> {
    match q.sort_type {
        Some(sort_type) => "sortType="@ + dec_str(sort_type.spec_as_u8() as nat) + "&"@,
        None => Seq::<char>::empty(),
    }
}

/// The `subcategory` fragment of a search query string, empty when unset.
pub open spec fn spec_subcategory_param(q: AvatarSearchQuery) -> Seq<char> {
    match q.subcategory {
        Some(subcategory) => "subcategory="@ + dec_str(subcategory.spec_as_u8() as nat) + "&"@,
        None => Seq::<char>::empty(),
    }
}

/// The `minPrice` fragment of a search query string, empty when unset.
pub open spec fn spec_min_price_param(q: AvatarSearchQuery) -> Seq<char> {
    match q.min_price {
        Some(min_price) => "minPrice="@ + dec_str(min_price as nat) + "&"@,
        None => Seq::<char>::empty(),
    }
}

/// The `maxPrice` fragment of a search query string, empty when unset.
pub open spec fn spec_max_price_param(q: AvatarSearchQuery) -> Seq<char> {
    match q.max_price {
        Some(max_price) => "maxPrice="@ + dec_str(max_price as nat) + "&"@,
        None => Seq::<char>::empty(),
    }
}

/// The `limit` fragment of a search query string, empty when unset.
pub open spec fn spec_limit_param(q: AvatarSearchQuery) -> Seq<char> {
    match q.limit {
        Some(limit) => "limit="@ + dec_str(limit.spec_as_u8() as nat) + "&"@,
        None => Seq::<char>::empty(),
    }
}

/// The `salesTypeFilter` fragment of a search query string, empty when
/// unset.
pub open spec fn spec_sales_type_filter_param(q: AvatarSearchQuery) -> Seq<char> {
    match q.sales_type_filter {
        Some(sales_type_filter) => "salesTypeFilter="@ + dec_str(
            sales_type_filter.spec_as_u8() as nat,
        ) + "&"@,
        None => Seq::<char>::empty(),
    }
}

/// Every parameter fragment of a search query string, in the order the
/// query builder writes them, each terminated by an ampersand.
pub open spec fn spec_query_params(q: AvatarSearchQuery) -> Seq<char> {
    spec_category_param(q) + spec_creator_name_param(q) + spec_creator_id_param(q)
        + spec_creator_type_param(q) + spec_genres_param(q) + spec_keyword_param(q)
        + spec_sort_aggregation_param(q) + spec_sort_type_param(q) + spec_subcategory_param(q)
        + spec_min_price_param(q) + spec_max_price_param(q) + spec_limit_param(q)
        + spec_sales_type_filter_param(q)
}

/// The whole search url: the base url followed by the parameters, with
/// the trailing ampersand removed when any parameter was written.
pub open spec fn spec_search_url(q: AvatarSearchQuery) -> Seq<char> {
    let params = spec_query_params(q);
    let full = "https://catalog.roblox.com/v1/search/items?"@ + params;
    if params.len() == 0 {
        full
    } else {
        full.drop_last()
    }
}

/// Appends the `category` fragment of `q`, if any, to `params`.
fn append_category_param(params: &mut String, q: &AvatarSearchQuery)
    ensures
        final(params)@ == old(params)@ + spec_category_param(*q),
{
    if let Some(category) = q.category {
        params.append("category=");
        let encoded = u64_to_string(category.as_u8() as u64);
        params.append(encoded.as_str());
        params.append("&");
    }
    proof {
        assert(final(params)@ =~= old(params)@ + spec_category_param(*q));
    }
}

/// Appends the `creatorName` fragment of `q`, if any, to `params`.
fn append_creator_name_param(params: &mut String, q: &AvatarSearchQuery)
    ensures
        final(params)@ == old(params)@ + spec_creator_name_param(*q),
{
    if let Some(creator_name) = &q.creator_name {
        params.append("creatorName=");
        params.append(creator_name.as_str());
        params.append("&");
    }
    proof {
        assert(final(params)@ =~= old(params)@ + spec_creator_name_param(*q));
    }
}

/// Appends the `creatorTargetId` fragment of `q`, if any, to `params`.
fn append_creator_id_param(params: &mut String, q: &AvatarSearchQuery)
    ensures
        final(params)@ == old(params)@ + spec_creator_id_param(*q),
{
    if let Some(creator_id) = q.creator_id {
        params.append("creatorTargetId=");
        let encoded = u64_to_string(creator_id);
        params.append(encoded.as_str());
        params.append("&");
    }
    proof {
        assert(final(params)@ =~= old(params)@ + spec_creator_id_param(*q));
    }
}

/// Appends the `creatorType` fragment of `q`, if any, to `params`.
fn append_creator_type_param(params: &mut String, q: &AvatarSearchQuery)
    ensures
        final(params)@ == old(params)@ + spec_creator_type_param(*q),
{
    if let Some(creator_type) = q.creator_type {
        params.append("creatorType=");
        let encoded = u64_to_string(creator_type.as_u8() as u64);
        params.append(encoded.as_str());
        params.append("&");
    }
    proof {
        assert(final(params)@ =~= old(params)@ + spec_creator_type_param(*q));
    }
}

/// Appends the `genre` fragment of `q`, if any, to `params`.
fn append_genres_param(params: &mut String, q: &AvatarSearchQuery)
    ensures
        final(params)@ == old(params)@ + spec_genres_param(*q),
{
    if q.query_genres.len() > 0 {
        params.append("genre=");
        let ghost genre_base: Seq<char> = params@;
        let mut i: usize = 0;
        proof {
            assert(params@ =~= genre_base + spec_genre_list(q.query_genres@.take(0)));
        }
        while i < q.query_genres.len()
            invariant
                i <= q.query_genres.len(),
                params@ == genre_base + spec_genre_list(q.query_genres@.take(i as int)),
            decreases q.query_genres.len() - i,
        {
            let genre = q.query_genres[i];
            let encoded = u64_to_string(genre.as_u8() as u64);
            params.append(encoded.as_str());
            params.append(",");
            i = i + 1;
            proof {
                let taken = q.query_genres@.take(i as int);
                assert(taken.drop_last() =~= q.query_genres@.take(i as int - 1));
                assert(taken.last() == q.query_genres@[i as int - 1]);
                assert(params@ =~= genre_base + spec_genre_list(taken));
            }
        }
        params.append("&");
        proof {
            assert(q.query_genres@.take(q.query_genres@.len() as int) =~= q.query_genres@);
        }
    }
    proof {
        assert(final(params)@ =~= old(params)@ + spec_genres_param(*q));
    }
}

/// Appends the `keyword` fragment of `q`, if any, to `params`.
fn append_keyword_param(params: &mut String, q: &AvatarSearchQuery)
    ensures
        final(params)@ == old(params)@ + spec_keyword_param(*q),
{
    if let Some(keyword) = &q.keyword {
        params.append("keyword=");
        params.append(keyword.as_str());
        params.append("&");
    }
    proof {
        assert(final(params)@ =~= old(params)@ + spec_keyword_param(*q));
    }
}

/// Appends the `sortAggregation` fragment of `q`, if any, to `params`.
fn append_sort_aggregation_param(params: &mut String, q: &AvatarSearchQuery)
    ensures
        final(params)@ == old(params)@ + spec_sort_aggregation_param(*q),
{
    if let Some(sort_aggregation) = q.sort_aggregation {
        params.append("sortAggregation=");
        let encoded = u64_to_string(sort_aggregation.as_u8() as u64);
        params.append(encoded.as_str());
        params.append("&");
    }
    proof {
        assert(final(params)@ =~= old(params)@ + spec_sort_aggregation_param(*q));
    }
}

/// Appends the `sortType` fragment of `q`, if any, to `params`.
fn append_sort_type_param(params: &mut String, q: &AvatarSearchQuery)
    ensures
        final(params)@ == old(params)@ + spec_sort_type_param(*q),
{
    if let Some(sort_type) = q.sort_type {
        params.append("sortType=");
        let encoded = u64_to_string(sort_type.as_u8() as u64);
        params.append(encoded.as_str());
        params.append("&");
    }
    proof {
        assert(final(params)@ =~= old(params)@ + spec_sort_type_param(*q));
    }
}

/// Appends the `subcategory` fragment of `q`, if any, to `params`.
fn append_subcategory_param(params: &mut String, q: &AvatarSearchQuery)
    ensures
        final(params)@ == old(params)@ + spec_subcategory_param(*q),
{
    if let Some(subcategory) = q.subcategory {
        params.append("subcategory=");
        let encoded = u64_to_string(subcategory.as_u8() as u64);
        params.append(encoded.as_str());
        params.append("&");
    }
    proof {
        assert(final(params)@ =~= old(params)@ + spec_subcategory_param(*q));
    }
}

/// Appends the `minPrice` fragment of `q`, if any, to `params`.
fn append_min_price_param(params: &mut String, q: &AvatarSearchQuery)
    ensures
        final(params)@ == old(params)@ + spec_min_price_param(*q),
{
    if let Some(min_price) = q.min_price {
        params.append("minPrice=");
        let encoded = u64_to_string(min_price as u64);
        params.append(encoded.as_str());
        params.append("&");
    }
    proof {
        assert(final(params)@ =~= old(params)@ + spec_min_price_param(*q));
    }
}

/// Appends the `maxPrice` fragment of `q`, if any, to `params`.
fn append_max_price_param(params: &mut String, q: &AvatarSearchQuery)
    ensures
        final(params)@ == old(params)@ + spec_max_price_param(*q),
{
    if let Some(max_price) = q.max_price {
        params.append("maxPrice=");
        let encoded = u64_to_string(max_price as u64);
        params.append(encoded.as_str());
        params.append("&");
    }
    proof {
        assert(final(params)@ =~= old(params)@ + spec_max_price_param(*q));
    }
}

/// Appends the `limit` fragment of `q`, if any, to `params`.
fn append_limit_param(params: &mut String, q: &AvatarSearchQuery)
    ensures
        final(params)@ == old(params)@ + spec_limit_param(*q),
{
    if let Some(limit) = q.limit {
        params.append("limit=");
        let encoded = u64_to_string(limit.as_u8() as u64);
        params.append(encoded.as_str());
        params.append("&");
    }
    proof {
        assert(final(params)@ =~= old(params)@ + spec_limit_param(*q));
    }
}

/// Appends the `salesTypeFilter` fragment of `q`, if any, to `params`.
fn append_sales_type_filter_param(params: &mut String, q: &AvatarSearchQuery)
    ensures
        final(params)@ == old(params)@ + spec_sales_type_filter_param(*q),
{
    if let Some(sales_type_filter) = q.sales_type_filter {
        params.append("salesTypeFilter=");
        let encoded = u64_to_string(sales_type_filter.as_u8() as u64);
        params.append(encoded.as_str());
        params.append("&");
    }
    proof {
        assert(final(params)@ =~= old(params)@ + spec_sales_type_filter_param(*q));
    }
}

impl AvatarSearchQuery {
    /// Converts the query into a url, writing each set field as one query
    /// parameter in a fixed order.
    #[verifier::rlimit(100)]
    #[verifier::spinoff_prover]
    pub fn to_url(&self) -> (r: String)
        ensures
            r@ == spec_search_url(*self),
    {
        let mut params = String::new();
        append_category_param(&mut params, self);
        append_creator_name_param(&mut params, self);
        append_creator_id_param(&mut params, self);
        append_creator_type_param(&mut params, self);
        append_genres_param(&mut params, self);
        append_keyword_param(&mut params, self);
        append_sort_aggregation_param(&mut params, self);
        append_sort_type_param(&mut params, self);
        append_subcategory_param(&mut params, self);
        append_min_price_param(&mut params, self);
        append_max_price_param(&mut params, self);
        append_limit_param(&mut params, self);
        append_sales_type_filter_param(&mut params, self);
        proof {
            assert(params@ =~= spec_query_params(*self));
        }
        let full = String::from_str("https://catalog.roblox.com/v1/search/items?").concat(
            params.as_str(),
        );
        let params_len = params.as_str().unicode_len();
        if params_len == 0 {
            full
        } else {
            let full_len = full.as_str().unicode_len();
            let trimmed = full.as_str().substring_char(0, full_len - 1);
            let result = trimmed.to_owned();
            proof {
                assert(result@ =~= spec_search_url(*self));
            }
            result
        }
    }
}

/// A builder for [`AvatarSearchQuery`].
#[derive(Clone, Debug, PartialEq, Eq)]
pub struct AvatarSearchQueryBuilder {
    query: AvatarSearchQuery,
}

impl AvatarSearchQueryBuilder {
    /// The query as built so far.
    pub closed spec fn spec_query(&self) -> AvatarSearchQuery {
        self.query
    }

    /// Creates a new `AvatarSearchQueryBuilder` with every field unset.
    pub fn new() -> (r: AvatarSearchQueryBuilder)
        ensures
            r.spec_query().category is None,
            r.spec_query().creator_name is None,
            r.spec_query().creator_id is None,
            r.spec_query().creator_type is None,
            r.spec_query().query_genres@.len() == 0,
            r.spec_query().keyword is None,
            r.spec_query().sort_aggregation is None,
            r.spec_query().sort_type is None,
            r.spec_query().subcategory is None,
            r.spec_query().min_price is None,
            r.spec_query().max_price is None,
            r.spec_query().limit is None,
            r.spec_query().sales_type_filter is None,
    {
        AvatarSearchQueryBuilder {
            query: AvatarSearchQuery {
                category: None,
                creator_name: None,
                creator_id: None,
                creator_type: None,
                query_genres: Vec::new(),
                keyword: None,
                sort_aggregation: None,
                sort_type: None,
                subcategory: None,
                min_price: None,
                max_price: None,
                limit: None,
                sales_type_filter: None,
            },
        }
    }

    /// Builds the [`AvatarSearchQuery`].
    pub fn build(self) -> (r: AvatarSearchQuery)
        ensures
            r == self.spec_query(),
    {
        self.query
    }

    /// Sets the category to search in.
    pub fn category(self, category: Category) -> (r: AvatarSearchQueryBuilder)
        ensures
            r.spec_query() == (AvatarSearchQuery { category: Some(category), ..self.spec_query() }),
    {
        let mut builder = self;
        builder.query.category = Some(category);
        builder
    }

    /// Sets the creator name to search by.
    pub fn creator_name(self, creator_name: String) -> (r: AvatarSearchQueryBuilder)
        ensures
            r.spec_query() == (AvatarSearchQuery {
                creator_name: Some(creator_name),
                ..self.spec_query()
            }),
    {
        let mut builder = self;
        builder.query.creator_name = Some(creator_name);
        builder
    }

    /// Sets the creator id to search by.
    pub fn creator_id(self, creator_id: u64) -> (r: AvatarSearchQueryBuilder)
        ensures
            r.spec_query() == (AvatarSearchQuery {
                creator_id: Some(creator_id),
                ..self.spec_query()
            }),
    {
        let mut builder = self;
        builder.query.creator_id = Some(creator_id);
        builder
    }

    /// Sets the creator type to search by.
    pub fn creator_type(self, creator_type: CreatorType) -> (r: AvatarSearchQueryBuilder)
        ensures
            r.spec_query() == (AvatarSearchQuery {
                creator_type: Some(creator_type),
                ..self.spec_query()
            }),
    {
        let mut builder = self;
        builder.query.creator_type = Some(creator_type);
        builder
    }

    /// Sets the genres to search for.
    pub fn query_genres(self, query_genres: Vec<QueryGenre>) -> (r: AvatarSearchQueryBuilder)
        ensures
            r.spec_query() == (AvatarSearchQuery { query_genres, ..self.spec_query() }),
    {
        let mut builder = self;
        builder.query.query_genres = query_genres;
        builder
    }

    /// Sets the keyword to search for.
    pub fn keyword(self, keyword: String) -> (r: AvatarSearchQueryBuilder)
        ensures
            r.spec_query() == (AvatarSearchQuery { keyword: Some(keyword), ..self.spec_query() }),
    {
        let mut builder = self;
        builder.query.keyword = Some(keyword);
        builder
    }

    /// Sets the metric to sort results by.
    pub fn sort_aggregation(self, sort_aggregation: SortAggregation) -> (r:
        AvatarSearchQueryBuilder)
        ensures
            r.spec_query() == (AvatarSearchQuery {
                sort_aggregation: Some(sort_aggregation),
                ..self.spec_query()
            }),
    {
        let mut builder = self;
        builder.query.sort_aggregation = Some(sort_aggregation);
        builder
    }

    /// Sets the order to sort results in.
    pub fn sort_type(self, sort_type: SortType) -> (r: AvatarSearchQueryBuilder)
        ensures
            r.spec_query() == (AvatarSearchQuery {
                sort_type: Some(sort_type),
                ..self.spec_query()
            }),
    {
        let mut builder = self;
        builder.query.sort_type = Some(sort_type);
        builder
    }

    /// Sets the subcategory to search in.
    pub fn subcategory(self, subcategory: Subcategory) -> (r: AvatarSearchQueryBuilder)
        ensures
            r.spec_query() == (AvatarSearchQuery {
                subcategory: Some(subcategory),
                ..self.spec_query()
            }),
    {
        let mut builder = self;
        builder.query.subcategory = Some(subcategory);
        builder
    }

    /// Sets the minimum price for each asset.
    pub fn min_price(self, min_price: u32) -> (r: AvatarSearchQueryBuilder)
        ensures
            r.spec_query() == (AvatarSearchQuery {
                min_price: Some(min_price),
                ..self.spec_query()
            }),
    {
        let mut builder = self;
        builder.query.min_price = Some(min_price);
        builder
    }

    /// Sets the maximum price for each asset.
    pub fn max_price(self, max_price: u32) -> (r: AvatarSearchQueryBuilder)
        ensures
            r.spec_query() == (AvatarSearchQuery {
                max_price: Some(max_price),
                ..self.spec_query()
            }),
    {
        let mut builder = self;
        builder.query.max_price = Some(max_price);
        builder
    }

    /// Sets the amount of items to return per page.
    ///
    /// Note that this uses [`CatalogQueryLimit`] instead of the universal
    /// [`crate::Limit`].
    pub fn limit(self, limit: CatalogQueryLimit) -> (r: AvatarSearchQueryBuilder)
        ensures
            r.spec_query() == (AvatarSearchQuery { limit: Some(limit), ..self.spec_query() }),
    {
        let mut builder = self;
        builder.query.limit = Some(limit);
        builder
    }

    /// Sets the sale type of assets to search for.
    pub fn sales_type_filter(self, sales_type_filter: SalesTypeFilter) -> (r:
        AvatarSearchQueryBuilder)
        ensures
            r.spec_query() == (AvatarSearchQuery {
                sales_type_filter: Some(sales_type_filter),
                ..self.spec_query()
            }),
    {
        let mut builder = self;
        builder.query.sales_type_filter = Some(sales_type_filter);
        builder
    }
}

/// A struct containing (mostly) all the fields possibly returned from the
/// item details endpoint.
#[derive(Clone, Debug, PartialEq, Eq)]
pub struct ItemDetails {
    /// Either the asset id, or the bundle id, depending on the item type.
    pub id: u64,
    /// The type of item (Asset or Bundle).
    pub item_type: ItemType,
    /// Exclusive with `bundle_type`.
    pub asset_type: Option<AssetType>,
    /// Exclusive with `asset_type`.
    pub bundle_type: Option<BundleType>,
    /// The name of the item.
    pub name: String,
    /// The description of the item.
    pub description: String,
    /// The product id of the item. This is different from the asset or
    /// bundle id, and is most notably used when buying limiteds.
    pub product_id: Option<u64>,
    /// Only exists if the item type is an asset.
    pub genres: Option<Vec<Genre>>,
    /// The statuses of an item (e.g., New, Sale). Does not exist on "new"
    /// limiteds.
    pub item_statuses: Option<Vec<ItemStatus>>,
    /// The restrictions on an item (e.g., ThirteenPlus, Limited).
    pub item_restrictions: Option<Vec<ItemRestriction>>,
    /// Whether the creator is verified.
    pub creator_has_verified_badge: bool,
    /// The type of creator that created the item (User or Group).
    pub creator_type: CreatorType,
    /// The id (group or user) of the creator.
    pub creator_id: u64,
    /// The name of the creator.
    pub creator_name: String,
    /// Coincides with price if the item is a non-limited; if the item is
    /// offsale, the price is 0.
    pub price: Option<u64>,
    /// Only exists if the item has special premium pricing.
    pub premium_pricing: Option<PremiumPricing>,
    /// The lowest price of the item by a reseller; only present for
    /// limited items.
    pub lowest_price: Option<u64>,
    /// The lowest resale price of the item; only present for limited
    /// items.
    pub lowest_resale_price: Option<u64>,
    /// Only exists if the item has a special price status.
    pub price_status: Option<PriceStatus>,
    /// The amount of stock available for direct purchase; only present
    /// for limited items.
    pub units_available_for_consumption: Option<u64>,
    /// The amount of times the asset has been purchased.
    pub purchase_count: Option<u64>,
    /// Not present when details for multiple items were requested.
    pub favorite_count: Option<u64>,
    /// The id needed to purchase a "new" limited; replaces the product id.
    pub collectible_item_id: Option<String>,
    /// Whether the asset has resellers; only present for limited items.
    pub has_resellers: Option<bool>,
    /// Whether the asset is off sale; only present if false.
    pub is_off_sale: Option<bool>,
    /// Where users are able to purchase the asset.
    pub sale_location_type: Option<SaleLocationType>,
    /// The maximum quantity of stock that one user can buy.
    pub quantity_limit_per_user: Option<u64>,
    /// The remaining stock of an item. Only applies to "new" limiteds.
    pub remaining_stock: Option<u64>,
    /// The total stock of an item. Only applies to "new" limiteds.
    pub total_stock: Option<u64>,
}

/// When the raw details of one item are rejected as malformed: a required
/// field is missing, or a numeric type code is not one the service
/// assigns.
pub open spec fn spec_item_details_rejected(raw: ItemDetailsRaw) -> bool {
    ||| (raw.asset_type matches Some(v) && spec_asset_type_from_u64(v) is None)
    ||| (raw.bundle_type matches Some(v) && spec_bundle_type_from_u64(v) is None)
    ||| raw.id is None
    ||| raw.item_type is None
    ||| raw.name is None
    ||| raw.description is None
    ||| raw.creator_type is None
    ||| raw.creator_has_verified_badge is None
    ||| raw.creator_target_id is None
    ||| raw.creator_name is None
}

/// How the public details relate to the raw response fields: required
/// fields are unwrapped, numeric type codes are decoded, the sale
/// location name is parsed, and everything else is carried over.
pub open spec fn spec_item_details_from_raw(raw: ItemDetailsRaw, d: ItemDetails) -> bool {
    &&& d.id == raw.id->0
    &&& d.item_type == raw.item_type->0
    &&& d.asset_type == (match raw.asset_type {
        Some(v) => spec_asset_type_from_u64(v),
        None => None::<AssetType>,
    })
    &&& d.bundle_type == (match raw.bundle_type {
        Some(v) => spec_bundle_type_from_u64(v),
        None => None::<BundleType>,
    })
    &&& d.name == raw.name->0
    &&& d.description == raw.description->0
    &&& d.product_id == raw.product_id
    &&& d.genres == raw.genres
    &&& d.item_statuses == raw.item_status
    &&& d.item_restrictions == raw.item_restrictions
    &&& d.creator_has_verified_badge == raw.creator_has_verified_badge->0
    &&& d.creator_type == raw.creator_type->0
    &&& d.creator_id == raw.creator_target_id->0
    &&& d.creator_name == raw.creator_name->0
    &&& d.price == raw.price
    &&& d.premium_pricing == raw.premium_pricing
    &&& d.lowest_price == raw.lowest_price
    &&& d.lowest_resale_price == raw.lowest_resale_price
    &&& d.price_status == raw.price_status
    &&& d.units_available_for_consumption == raw.units_available_for_consumption
    &&& d.purchase_count == raw.purchase_count
    &&& d.favorite_count == raw.favorite_count
    &&& d.collectible_item_id == raw.collectible_item_id
    &&& d.has_resellers == raw.has_resellers
    &&& d.is_off_sale == raw.is_off_sale
    &&& d.sale_location_type == (match raw.sale_location_type {
        Some(s) => spec_sale_location_type_from_str(s@),
        None => None::<SaleLocationType>,
    })
    &&& d.quantity_limit_per_user == raw.quantity_limit_per_user
    &&& d.remaining_stock == raw.units_available_for_consumption
    &&& d.total_stock == raw.total_quantity
}

impl ItemDetails {
    /// Checks and reshapes one raw entry of the item details response.
    /// Exactly the malformed entries are rejected.
    pub fn try_from(raw: ItemDetailsRaw) -> (r: Result<ItemDetails, RoboatError>)
        ensures
            r is Err <==> spec_item_details_rejected(raw),
            r matches Err(e) ==> e is MalformedResponse,
            r matches Ok(d) ==> spec_item_details_from_raw(raw, d),
    {
        let asset_type = match raw.asset_type {
            Some(code) => match AssetType::try_from(code) {
                Ok(t) => Some(t),
                Err(_) => return Err(RoboatError::MalformedResponse),
            },
            None => None,
        };
        let bundle_type = match raw.bundle_type {
            Some(code) => match BundleType::try_from(code) {
                Ok(t) => Some(t),
                Err(_) => return Err(RoboatError::MalformedResponse),
            },
            None => None,
        };
        let id = match raw.id {
            Some(id) => id,
            None => return Err(RoboatError::MalformedResponse),
        };
        let item_type = match raw.item_type {
            Some(item_type) => item_type,
            None => return Err(RoboatError::MalformedResponse),
        };
        let name = match raw.name {
            Some(name) => name,
            None => return Err(RoboatError::MalformedResponse),
        };
        let description = match raw.description {
            Some(description) => description,
            None => return Err(RoboatError::MalformedResponse),
        };
        let creator_type = match raw.creator_type {
            Some(creator_type) => creator_type,
            None => return Err(RoboatError::MalformedResponse),
        };
        let creator_has_verified_badge = match raw.creator_has_verified_badge {
            Some(verified) => verified,
            None => return Err(RoboatError::MalformedResponse),
        };
        let creator_id = match raw.creator_target_id {
            Some(creator_id) => creator_id,
            None => return Err(RoboatError::MalformedResponse),
        };
        let creator_name = match raw.creator_name {
            Some(creator_name) => creator_name,
            None => return Err(RoboatError::MalformedResponse),
        };
        let sale_location_type = match raw.sale_location_type {
            Some(s) => SaleLocationType::from_str(s.as_str()),
            None => None,
        };
        Ok(ItemDetails {
            id,
            item_type,
            asset_type,
            bundle_type,
            name,
            description,
            product_id: raw.product_id,
            genres: raw.genres,
            item_statuses: raw.item_status,
            item_restrictions: raw.item_restrictions,
            creator_has_verified_badge,
            creator_type,
            creator_id,
            creator_name,
            price: raw.price,
            premium_pricing: raw.premium_pricing,
            lowest_price: raw.lowest_price,
            lowest_resale_price: raw.lowest_resale_price,
            price_status: raw.price_status,
            units_available_for_consumption: raw.units_available_for_consumption,
            purchase_count: raw.purchase_count,
            favorite_count: raw.favorite_count,
            collectible_item_id: raw.collectible_item_id,
            has_resellers: raw.has_resellers,
            is_off_sale: raw.is_off_sale,
            sale_location_type,
            quantity_limit_per_user: raw.quantity_limit_per_user,
            remaining_stock: raw.units_available_for_consumption,
            total_stock: raw.total_quantity,
        })
    }
}

} // verus!
