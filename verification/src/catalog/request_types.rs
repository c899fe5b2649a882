//! The raw shapes of catalog endpoint responses, before they are checked
//! and reshaped into the public types.

use vstd::prelude::*;

verus! {

use crate::catalog::catalog_types::{
    CreatorType, Genre, Item, ItemRestriction, ItemStatus, ItemType, PremiumPricing, PriceStatus,
};

/// The raw fields of one entry of the item details response. Every field
/// the endpoint may omit is optional here; the conversion to
/// [`crate::catalog::catalog_types::ItemDetails`] decides which ones are
/// required.
pub struct ItemDetailsRaw {
    /// The asset or bundle id.
    pub id: Option<u64>,
    /// The type of item (Asset or Bundle).
    pub item_type: Option<ItemType>,
    /// The numeric bundle type code.
    pub bundle_type: Option<u64>,
    /// The numeric asset type code.
    pub asset_type: Option<u64>,
    /// The name of the item.
    pub name: Option<String>,
    /// The description of the item.
    pub description: Option<String>,
    /// The product id of the item.
    pub product_id: Option<u64>,
    /// The genres of the item.
    pub genres: Option<Vec<Genre>>,
    /// The statuses of the item.
    pub item_status: Option<Vec<ItemStatus>>,
    /// The restrictions on the item.
    pub item_restrictions: Option<Vec<ItemRestriction>>,
    /// Whether the creator is verified.
    pub creator_has_verified_badge: Option<bool>,
    /// The type of the creator.
    pub creator_type: Option<CreatorType>,
    /// The id of the creator.
    pub creator_target_id: Option<u64>,
    /// The name of the creator.
    pub creator_name: Option<String>,
    /// Exists instead of `lowest_price` if the item is non-limited.
    pub price: Option<u64>,
    /// Exists instead of `price` if the item is limited.
    pub lowest_price: Option<u64>,
    /// The lowest price of the item by a reseller.
    pub lowest_resale_price: Option<u64>,
    /// The favorite count of the item.
    pub favorite_count: Option<u64>,
    /// The purchase count of the item.
    pub purchase_count: Option<u64>,
    /// The premium pricing of the item.
    pub premium_pricing: Option<PremiumPricing>,
    /// The price status of the item.
    pub price_status: Option<PriceStatus>,
    /// Only exists for "new" limiteds.
    pub collectible_item_id: Option<String>,
    /// Only exists for "new" limiteds.
    pub total_quantity: Option<u64>,
    /// Whether the asset has resellers.
    pub has_resellers: Option<bool>,
    /// Whether the asset is off sale.
    pub is_off_sale: Option<bool>,
    /// The remaining stock of the item.
    pub remaining_stock: Option<u64>,
    /// The total stock of the item.
    pub total_stock: Option<u64>,
    /// The maximum quantity of stock one user can buy.
    pub quantity_limit_per_user: Option<u64>,
    /// The sale location name of the item.
    pub sale_location_type: Option<String>,
    /// Only exists for "new" limiteds.
    pub units_available_for_consumption: Option<u64>,
}

/// One entry of an avatar catalog search response: the matching items in
/// order, and the cursor of the next page when there is one.
pub struct AvatarSearchQueryResponse {
    /// The cursor for the next page of results.
    pub next_page_cursor: Option<String>,
    /// The items found.
    pub items: Vec<Item>,
}

} // verus!
