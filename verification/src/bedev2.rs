//! Types and verified logic for the marketplace endpoints that live under
//! the `apis` host: non-tradable limited details and purchases.

use vstd::prelude::*;

verus! {

use crate::RoboatError;
use crate::catalog::catalog_types::CreatorType;

/// Domain errors the remote service throws when purchasing a non-tradable
/// limited.
#[derive(Clone, Debug, PartialEq, Eq)]
pub enum PurchaseNonTradableLimitedError {
    /// Thrown when the price of the item is not the same as the price
    /// you're trying to buy it for.
    PriceMismatch,
    /// Thrown when the item is sold out.
    SoldOut,
    /// Thrown when an unknown error occurs; carries the raw purchase
    /// result string.
    UnknownRobloxErrorMsg(String),
}

/// Used to specify the type of classic clothing being uploaded.
#[derive(Clone, Copy, PartialEq, Eq, Structural, Debug)]
pub enum ClassicClothingType {
    /// A classic shirt.
    Shirt,
    /// Classic pants.
    Pants,
    /// A classic t-shirt.
    TShirt,
}

impl ClassicClothingType {
    /// The spelling of this clothing type inside upload requests.
    pub open spec fn spec_as_str(self) -> Seq<char> {
        match self {
            ClassicClothingType::Shirt => "Shirt"@,
            ClassicClothingType::Pants => "Pants"@,
            ClassicClothingType::TShirt => "T-Shirt"@,
        }
    }

    /// The name of this clothing type as the upload endpoint spells it.
    pub fn as_str(self) -> (r: &'static str)
        ensures
            r@ == self.spec_as_str(),
    {
        match self {
            ClassicClothingType::Shirt => "Shirt",
            ClassicClothingType::Pants => "Pants",
            ClassicClothingType::TShirt => "T-Shirt",
        }
    }
}

/// Details of a non-tradable limited, as returned by the marketplace item
/// details endpoint.
#[derive(Clone, Debug)]
pub struct NonTradableLimitedDetails {
    /// The normal numeric item id.
    pub item_id: u64,
    /// The string item id. This only exists for non-tradable limiteds.
    pub collectible_item_id: String,
    /// The string used as a product id to buy the item.
    pub collectible_product_id: String,
    /// The name of the item.
    pub name: String,
    /// The description of the item.
    pub description: String,
    /// Whether the creator has a verified badge.
    pub creator_has_verified_badge: bool,
    /// The type of creator that created the item (User or Group).
    pub creator_type: CreatorType,
    /// The id (group or user) of the creator.
    pub creator_id: u64,
    /// The name of the creator.
    pub creator_name: String,
    /// The current price of the item.
    pub price: u64,
    /// The lowest price of the item; observed equal to `price` so far.
    pub lowest_price: u64,
    /// The stock amount left.
    pub remaining_stock: u64,
    /// The total stock amount on release.
    pub total_stock: u64,
    /// The error code if the service decides to throw one.
    pub error_code: Option<u64>,
}

/// The raw fields of the marketplace item details response that
/// [`NonTradableLimitedDetails`] is built from.
pub struct NonTradableLimitedDetailsRaw {
    /// The string item id.
    pub collectible_item_id: String,
    /// The name of the item.
    pub name: String,
    /// The description of the item.
    pub description: String,
    /// The string product id.
    pub collectible_product_id: String,
    /// Whether the creator has a verified badge.
    pub creator_has_verified_badge: bool,
    /// The type of creator that created the item.
    pub creator_type: CreatorType,
    /// The numeric item id.
    pub item_target_id: u64,
    /// The id of the creator.
    pub creator_id: u64,
    /// The name of the creator.
    pub creator_name: String,
    /// The current price.
    pub price: u64,
    /// The lowest price.
    pub lowest_price: u64,
    /// The purchasable stock amount.
    pub units_available_for_consumption: u64,
    /// The deadline after which the item goes off sale.
    pub off_sale_deadline: String,
    /// The total stock amount on release.
    pub asset_stock: u64,
    /// The error code if the service decides to throw one.
    pub error_code: Option<u64>,
}

impl NonTradableLimitedDetails {
    /// Reshapes the raw response fields into the public details struct.
    pub fn try_from(raw: NonTradableLimitedDetailsRaw) -> (r: Result<
        NonTradableLimitedDetails,
        RoboatError,
    >)
        ensures
            r matches Ok(d) && {
                &&& d.item_id == raw.item_target_id
                &&& d.collectible_item_id == raw.collectible_item_id
                &&& d.collectible_product_id == raw.collectible_product_id
                &&& d.name == raw.name
                &&& d.description == raw.description
                &&& d.creator_has_verified_badge == raw.creator_has_verified_badge
                &&& d.creator_type == raw.creator_type
                &&& d.creator_id == raw.creator_id
                &&& d.creator_name == raw.creator_name
                &&& d.price == raw.price
                &&& d.lowest_price == raw.lowest_price
                &&& d.remaining_stock == raw.units_available_for_consumption
                &&& d.total_stock == raw.asset_stock
                &&& d.error_code == raw.error_code
            },
    {
        Ok(NonTradableLimitedDetails {
            item_id: raw.item_target_id,
            collectible_item_id: raw.collectible_item_id,
            collectible_product_id: raw.collectible_product_id,
            name: raw.name,
            description: raw.description,
            creator_has_verified_badge: raw.creator_has_verified_badge,
            creator_type: raw.creator_type,
            creator_id: raw.creator_id,
            creator_name: raw.creator_name,
            price: raw.price,
            lowest_price: raw.lowest_price,
            remaining_stock: raw.units_available_for_consumption,
            total_stock: raw.asset_stock,
            error_code: raw.error_code,
        })
    }
}

/// What the purchase endpoint reported: whether the purchase went through,
/// the raw purchase result string, and the optional error message.
pub open spec fn spec_purchase_outcome(
    purchased: bool,
    purchase_result: String,
    error_message: Option<String>,
    r: Result<(), RoboatError>,
) -> bool {
    if purchased {
        r == Ok::<(), RoboatError>(())
    } else {
        match error_message {
            None => r == Err::<(), RoboatError>(RoboatError::MalformedResponse),
            Some(msg) => if msg@ == "PriceMismatch"@ {
                r == Err::<(), RoboatError>(
                    RoboatError::PurchaseNonTradableLimitedError(
                        PurchaseNonTradableLimitedError::PriceMismatch,
                    ),
                )
            } else if msg@ == "QuantityExhausted"@ {
                r == Err::<(), RoboatError>(
                    RoboatError::PurchaseNonTradableLimitedError(
                        PurchaseNonTradableLimitedError::SoldOut,
                    ),
                )
            } else {
                r == Err::<(), RoboatError>(
                    RoboatError::PurchaseNonTradableLimitedError(
                        PurchaseNonTradableLimitedError::UnknownRobloxErrorMsg(purchase_result),
                    ),
                )
            },
        }
    }
}

/// Classifies what the purchase endpoint reported. A purchase that did not
/// go through is mapped to the matching domain error; an unrecognized
/// message carries the raw purchase result string, and a missing message is
/// a malformed response.
pub fn classify_purchase_result(
    purchased: bool,
    purchase_result: String,
    error_message: Option<String>,
) -> (r: Result<(), RoboatError>)
    ensures
        spec_purchase_outcome(purchased, purchase_result, error_message, r),
{
    if purchased {
        return Ok(());
    }
    match error_message {
        None => Err(RoboatError::MalformedResponse),
        Some(msg) => {
            if crate::text::str_eq(msg.as_str(), "PriceMismatch") {
                Err(
                    RoboatError::PurchaseNonTradableLimitedError(
                        PurchaseNonTradableLimitedError::PriceMismatch,
                    ),
                )
            } else if crate::text::str_eq(msg.as_str(), "QuantityExhausted") {
                Err(
                    RoboatError::PurchaseNonTradableLimitedError(
                        PurchaseNonTradableLimitedError::SoldOut,
                    ),
                )
            } else {
                Err(
                    RoboatError::PurchaseNonTradableLimitedError(
                        PurchaseNonTradableLimitedError::UnknownRobloxErrorMsg(purchase_result),
                    ),
                )
            }
        },
    }
}

/// The creator recorded in an asset's creation context: a user or a
/// group, by string id. A group-owned asset has no user id.
#[allow(missing_docs)]
#[derive(Clone, Debug)]
pub struct Creator {
    pub group_id: Option<String>,
    pub user_id: Option<String>,
}

/// The creation context of an asset.
#[derive(Clone, Debug)]
pub struct CreationContext {
    /// The creator recorded for the asset.
    pub creator: Creator,
}

/// The moderation verdict recorded for an asset.
#[derive(Clone, Debug)]
pub struct ModerationResult {
    /// The moderation state name.
    pub moderation_state: String,
}

/// Detailed information about one asset.
#[allow(missing_docs)]
#[derive(Clone, Debug)]
pub struct AssetInfo {
    pub path: String,
    pub revision_id: String,
    pub revision_create_time: String,
    pub asset_id: String,
    pub display_name: String,
    pub asset_type: String,
    pub creation_context: CreationContext,
    pub moderation_result: ModerationResult,
    pub state: String,
}

/// What the classic clothing upload endpoint reports back: the path and
/// operation id of the upload, and whether it is done.
#[allow(missing_docs)]
#[derive(Clone, Debug)]
pub struct UploadClassicClothingRaw {
    pub path: String,
    pub operation_id: String,
    pub done: bool,
}

/// Reads the collectible product id of the first fetched detail entry; a
/// missing entry is a malformed response.
pub fn collectible_product_id_from_details(details: &Vec<NonTradableLimitedDetails>) -> (r: Result<
    String,
    RoboatError,
>)
    ensures
        details@.len() > 0 ==> (r matches Ok(id) && id == details@[0].collectible_product_id),
        details@.len() == 0 ==> (r matches Err(e) && e is MalformedResponse),
{
    if details.len() == 0 {
        return Err(RoboatError::MalformedResponse);
    }
    Ok(details[0].collectible_product_id.clone())
}

/// Reads the creator id of the first fetched detail entry; a missing
/// entry is a malformed response.
pub fn collectible_creator_id_from_details(details: &Vec<NonTradableLimitedDetails>) -> (r: Result<
    u64,
    RoboatError,
>)
    ensures
        details@.len() > 0 ==> r == Ok::<u64, RoboatError>(details@[0].creator_id),
        details@.len() == 0 ==> (r matches Err(e) && e is MalformedResponse),
{
    if details.len() == 0 {
        return Err(RoboatError::MalformedResponse);
    }
    Ok(details[0].creator_id)
}

/// Collects the collectible product id of every fetched detail entry, in
/// order. The call succeeds exactly when the service answered one entry
/// per requested item; anything else is a malformed response.
pub fn collectible_product_ids_from_details(
    details: &Vec<NonTradableLimitedDetails>,
    expected_len: usize,
) -> (r: Result<Vec<String>, RoboatError>)
    ensures
        r is Ok <==> details@.len() == expected_len,
        r matches Ok(ids) ==> {
            &&& ids@.len() == details@.len()
            &&& forall|i: int|
                0 <= i < details@.len() ==> #[trigger] ids@[i] == details@[i].collectible_product_id
        },
        r matches Err(e) ==> e is MalformedResponse,
{
    if details.len() != expected_len {
        return Err(RoboatError::MalformedResponse);
    }
    let mut ids: Vec<String> = Vec::new();
    let mut i: usize = 0;
    while i < details.len()
        invariant
            i <= details.len(),
            ids@.len() == i,
            forall|j: int| 0 <= j < i ==> #[trigger] ids@[j] == details@[j].collectible_product_id,
        decreases details.len() - i,
    {
        ids.push(details[i].collectible_product_id.clone());
        i = i + 1;
    }
    Ok(ids)
}

/// The first position at or after `i` in `args` holding this collectible
/// item id, or nothing when the id never occurs.
pub open spec fn spec_collectible_position_from(args: Seq<String>, id: Seq<char>, i: int) -> Option<
    int,
>
    decreases args.len() - i,
    when 0 <= i <= args.len()
{
    if i >= args.len() {
        None
    } else if args[i]@ == id {
        Some(i)
    } else {
        spec_collectible_position_from(args, id, i + 1)
    }
}

/// The rank of a collectible item id for argument-order sorting: its
/// first position among the arguments, with ids that were never asked
/// for ranked last.
pub open spec fn spec_collectible_rank(args: Seq<String>, id: Seq<char>) -> int {
    match spec_collectible_position_from(args, id, 0) {
        Some(p) => p,
        None => usize::MAX as int,
    }
}

/// Finds the rank of a collectible item id among the arguments.
fn position_of_collectible_id(arguments: &Vec<String>, id: &String) -> (r: usize)
    ensures
        r as int == spec_collectible_rank(arguments@, id@),
{
    let mut i: usize = 0;
    while i < arguments.len()
        invariant
            i <= arguments.len(),
            spec_collectible_position_from(arguments@, id@, 0) == spec_collectible_position_from(
                arguments@,
                id@,
                i as int,
            ),
        decreases arguments.len() - i,
    {
        if crate::text::str_eq(arguments[i].as_str(), id.as_str()) {
            return i;
        }
        i = i + 1;
    }
    usize::MAX
}

/// Whether the details are ordered by the first occurrence of their
/// collectible item id among the arguments.
pub open spec fn spec_details_sorted_by_arguments(
    details: Seq<NonTradableLimitedDetails>,
    args: Seq<String>,
) -> bool {
    forall|i: int, j: int|
        0 <= i < j < details.len() ==> spec_collectible_rank(
            args,
            details[i].collectible_item_id@,
        ) <= spec_collectible_rank(args, details[j].collectible_item_id@)
}

/// Makes sure that the details are in the same order as the collectible
/// item ids they were requested with. Details whose id was never asked
/// for go last; the result holds exactly the details that came in.
pub fn sort_items_by_argument_order(
    items: &mut Vec<NonTradableLimitedDetails>,
    arguments: &Vec<String>,
)
    ensures
        final(items)@.to_multiset() == old(items)@.to_multiset(),
        spec_details_sorted_by_arguments(final(items)@, arguments@),
{
    broadcast use vstd::seq_lib::group_to_multiset_ensures;
    broadcast use vstd::multiset::group_multiset_axioms;

    let ghost original: Seq<NonTradableLimitedDetails> = items@;
    let mut sorted_items: Vec<NonTradableLimitedDetails> = Vec::new();
    while items.len() > 0
        invariant
            sorted_items@.to_multiset().add(items@.to_multiset()) =~= original.to_multiset(),
            spec_details_sorted_by_arguments(sorted_items@, arguments@),
            forall|i: int, j: int|
                0 <= i < sorted_items@.len() && 0 <= j < items@.len() ==> spec_collectible_rank(
                    arguments@,
                    sorted_items@[i].collectible_item_id@,
                ) <= spec_collectible_rank(arguments@, items@[j].collectible_item_id@),
        decreases items.len(),
    {
        let mut min_index: usize = 0;
        let mut min_rank: usize = position_of_collectible_id(
            arguments,
            &items[0].collectible_item_id,
        );
        let mut k: usize = 1;
        while k < items.len()
            invariant
                items@.len() > 0,
                1 <= k <= items@.len(),
                min_index < k,
                min_rank as int == spec_collectible_rank(
                    arguments@,
                    items@[min_index as int].collectible_item_id@,
                ),
                forall|t: int|
                    0 <= t < k ==> min_rank as int <= spec_collectible_rank(
                        arguments@,
                        items@[t].collectible_item_id@,
                    ),
            decreases items.len() - k,
        {
            let rank = position_of_collectible_id(arguments, &items[k].collectible_item_id);
            if rank < min_rank {
                min_rank = rank;
                min_index = k;
            }
            k = k + 1;
        }
        let ghost items_before: Seq<NonTradableLimitedDetails> = items@;
        let ghost sorted_before: Seq<NonTradableLimitedDetails> = sorted_items@;
        let next = items.remove(min_index);
        sorted_items.push(next);
        proof {
            assert(items@ == items_before.remove(min_index as int));
            assert(next == items_before[min_index as int]);
            vstd::seq_lib::to_multiset_remove(items_before, min_index as int);
            assert(sorted_items@ == sorted_before.push(next));
            vstd::seq_lib::to_multiset_build(sorted_before, next);
            assert(items_before.contains(next));
            vstd::seq_lib::to_multiset_contains(items_before, next);
            assert(sorted_items@.to_multiset().add(items@.to_multiset())
                =~= original.to_multiset());
            assert forall|i: int, j: int|
                0 <= i < sorted_items@.len() && 0 <= j < items@.len() implies spec_collectible_rank(
                arguments@,
                sorted_items@[i].collectible_item_id@,
            ) <= spec_collectible_rank(arguments@, items@[j].collectible_item_id@) by {
                if j < min_index {
                    assert(items@[j] == items_before[j]);
                } else {
                    assert(items@[j] == items_before[j + 1]);
                }
                if i < sorted_before.len() {
                    assert(sorted_items@[i] == sorted_before[i]);
                } else {
                    assert(sorted_items@[i] == next);
                }
            }
            assert(spec_details_sorted_by_arguments(sorted_items@, arguments@));
        }
    }
    proof {
        assert(items@.to_multiset().len() == 0);
        assert(items@.to_multiset()
            =~= vstd::multiset::Multiset::<NonTradableLimitedDetails>::empty());
        assert(sorted_items@.to_multiset().add(items@.to_multiset())
            =~= sorted_items@.to_multiset());
    }
    let ghost sorted_final: Seq<NonTradableLimitedDetails> = sorted_items@;
    items.append(&mut sorted_items);
    proof {
        assert(items@ =~= sorted_final);
    }
}

} // verus!
