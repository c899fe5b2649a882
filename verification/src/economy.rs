//! Types and verified logic for the economy endpoints: reseller
//! listings and the user's sale history.

use vstd::prelude::*;

verus! {

/// A reseller of a resale listing.
#[allow(missing_docs)]
#[derive(Clone, Debug)]
pub struct Reseller {
    pub user_id: u64,
    pub name: String,
}

/// A resale listing of a limited item.
#[derive(Clone, Debug)]
pub struct Listing {
    /// The unique asset id of the item.
    pub uaid: u64,
    /// The price of the listing.
    pub price: u64,
    /// The reseller of the listing.
    pub reseller: Reseller,
    /// The serial number of the item. This is separate from the uaid and
    /// only exists for Limited U items.
    pub serial_number: Option<u64>,
}

/// A sale of an asset from the user's transaction history.
#[derive(Clone, Debug)]
pub struct UserSale {
    /// These appear to be generated in sequential order and appear to be
    /// only related to sales.
    pub sale_id: u64,
    /// Whether the sale is still pending.
    pub is_pending: bool,
    /// The id of the user that purchased the asset.
    pub user_id: u64,
    /// The display name of the user that purchased the asset.
    pub user_display_name: String,
    /// The robux the user received after tax.
    pub robux_received: u64,
    /// The asset id of the item that was sold.
    pub asset_id: u64,
    /// The name of the item that was sold.
    pub asset_name: String,
}

/// What the tradable-limited purchase endpoint reports back.
#[allow(missing_docs)]
#[derive(Clone, Debug)]
pub struct PurchaseLimitedResponse {
    pub purchased: bool,
    pub error_msg: String,
}

/// The raw shape of the reseller of one listing.
#[allow(missing_docs)]
#[derive(Clone, Debug)]
pub struct ResellerRaw {
    pub has_verified_badge: bool,
    pub id: u64,
    pub name: String,
}

/// The raw shape of one entry of a resellers response.
#[allow(missing_docs)]
#[derive(Clone, Debug)]
pub struct ListingRaw {
    pub user_asset_id: u64,
    pub seller: ResellerRaw,
    pub price: u64,
    pub serial_number: Option<u64>,
}

/// The raw shape of the buyer of one sale.
#[allow(missing_docs)]
#[derive(Clone, Debug)]
pub struct SaleUserRaw {
    pub id: u64,
    pub user_display_name: String,
}

/// The raw shape of the item of one sale.
#[allow(missing_docs)]
#[derive(Clone, Debug)]
pub struct SaleDetailsRaw {
    pub id: u64,
    pub item_name: String,
}

/// The raw shape of one entry of the user's sale history.
#[allow(missing_docs)]
#[derive(Clone, Debug)]
pub struct SaleRaw {
    pub sale_id: u64,
    pub is_pending: bool,
    pub user: SaleUserRaw,
    pub details: SaleDetailsRaw,
    pub currency_amount: u64,
}

/// How one listing relates to its raw entry.
pub open spec fn spec_listing_from_raw(raw: ListingRaw, l: Listing) -> bool {
    &&& l.uaid == raw.user_asset_id
    &&& l.price == raw.price
    &&& l.reseller.user_id == raw.seller.id
    &&& l.reseller.name == raw.seller.name
    &&& l.serial_number == raw.serial_number
}

/// Reshapes the raw entries of a resellers response, keeping the order.
pub fn listings_from_response(data: Vec<ListingRaw>) -> (listings: Vec<Listing>)
    ensures
        listings@.len() == data@.len(),
        forall|i: int| 0 <= i < data@.len() ==> #[trigger] spec_listing_from_raw(
            data@[i],
            listings@[i],
        ),
{
    let mut listings: Vec<Listing> = Vec::new();
    let mut i: usize = 0;
    while i < data.len()
        invariant
            i <= data.len(),
            listings@.len() == i,
            forall|j: int| 0 <= j < i ==> #[trigger] spec_listing_from_raw(
                data@[j],
                listings@[j],
            ),
        decreases data.len() - i,
    {
        let entry = &data[i];
        listings.push(
            Listing {
                uaid: entry.user_asset_id,
                price: entry.price,
                reseller: Reseller { user_id: entry.seller.id, name: entry.seller.name.clone() },
                serial_number: entry.serial_number,
            },
        );
        i = i + 1;
    }
    listings
}

/// How one sale relates to its raw entry.
pub open spec fn spec_sale_from_raw(raw: SaleRaw, s: UserSale) -> bool {
    &&& s.sale_id == raw.sale_id
    &&& s.is_pending == raw.is_pending
    &&& s.user_id == raw.user.id
    &&& s.user_display_name == raw.user.user_display_name
    &&& s.robux_received == raw.currency_amount
    &&& s.asset_id == raw.details.id
    &&& s.asset_name == raw.details.item_name
}

/// Reshapes the raw entries of the user's sale history, keeping the
/// order.
pub fn sales_from_response(data: Vec<SaleRaw>) -> (sales: Vec<UserSale>)
    ensures
        sales@.len() == data@.len(),
        forall|i: int| 0 <= i < data@.len() ==> #[trigger] spec_sale_from_raw(data@[i], sales@[i]),
{
    let mut sales: Vec<UserSale> = Vec::new();
    let mut i: usize = 0;
    while i < data.len()
        invariant
            i <= data.len(),
            sales@.len() == i,
            forall|j: int| 0 <= j < i ==> #[trigger] spec_sale_from_raw(data@[j], sales@[j]),
        decreases data.len() - i,
    {
        let entry = &data[i];
        sales.push(
            UserSale {
                sale_id: entry.sale_id,
                is_pending: entry.is_pending,
                user_id: entry.user.id,
                user_display_name: entry.user.user_display_name.clone(),
                robux_received: entry.currency_amount,
                asset_id: entry.details.id,
                asset_name: entry.details.item_name.clone(),
            },
        );
        i = i + 1;
    }
    sales
}

} // verus!
