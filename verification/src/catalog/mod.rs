//! Types and verified logic for the avatar catalog endpoints.

use vstd::prelude::*;

pub mod catalog_types;
pub mod request_types;

pub use catalog_types::AssetType;
pub use catalog_types::AvatarSearchQuery;
pub use catalog_types::AvatarSearchQueryBuilder;
pub use catalog_types::BundleType;
pub use catalog_types::CatalogQueryLimit;
pub use catalog_types::Category;
pub use catalog_types::CreatorType;
pub use catalog_types::Genre;
pub use catalog_types::Item;
pub use catalog_types::ItemDetails;
pub use catalog_types::ItemRestriction;
pub use catalog_types::ItemStatus;
pub use catalog_types::ItemType;
pub use catalog_types::PremiumPricing;
pub use catalog_types::PriceStatus;
pub use catalog_types::QueryGenre;
pub use catalog_types::QueryLimit;
pub use catalog_types::SaleLocationType;
pub use catalog_types::SalesTypeFilter;
pub use catalog_types::SortAggregation;
pub use catalog_types::SortType;
pub use catalog_types::Subcategory;

verus! {

use crate::RoboatError;

/// The first position at or after `i` in `args` holding an item with this
/// id, or nothing when the id never occurs.
pub open spec fn spec_position_from(args: Seq<Item>, id: u64, i: int) -> Option<int>
    decreases args.len() - i,
    when 0 <= i <= args.len()
{
    if i >= args.len() {
        None
    } else if args[i].id == id {
        Some(i)
    } else {
        spec_position_from(args, id, i + 1)
    }
}

/// The rank of an id for argument-order sorting: its first position among
/// the arguments, with ids that were never asked for ranked last.
pub open spec fn spec_argument_rank(args: Seq<Item>, id: u64) -> int {
    match spec_position_from(args, id, 0) {
        Some(p) => p,
        None => usize::MAX as int,
    }
}

/// Finds the rank of an id: the first position among the arguments whose
/// item has this id, or the largest rank when the id never occurs.
fn position_of_id(arguments: &Vec<Item>, id: u64) -> (r: usize)
    ensures
        r as int == spec_argument_rank(arguments@, id),
{
    let mut i: usize = 0;
    while i < arguments.len()
        invariant
            i <= arguments.len(),
            spec_position_from(arguments@, id, 0) == spec_position_from(arguments@, id, i as int),
        decreases arguments.len() - i,
    {
        if arguments[i].id == id {
            return i;
        }
        i = i + 1;
    }
    usize::MAX
}

/// Whether the details are ordered by the first occurrence of their id
/// among the arguments.
pub open spec fn spec_sorted_by_arguments(items: Seq<ItemDetails>, args: Seq<Item>) -> bool {
    forall|i: int, j: int|
        0 <= i < j < items.len() ==> spec_argument_rank(args, items[i].id) <= spec_argument_rank(
            args,
            items[j].id,
        )
}

/// Makes sure that the items are in the same order as the arguments.
///
/// For example, if the arguments are `[1, 2, 3]` and the resulting items
/// are `[2, 1, 3]`, then the resulting items will be `[1, 2, 3]`. Details
/// whose id was never asked for go last. The result holds exactly the
/// details that came in.
pub fn sort_items_by_argument_order(items: &mut Vec<ItemDetails>, arguments: &Vec<Item>)
    ensures
        final(items)@.to_multiset() == old(items)@.to_multiset(),
        spec_sorted_by_arguments(final(items)@, arguments@),
{
    broadcast use vstd::seq_lib::group_to_multiset_ensures;
    broadcast use vstd::multiset::group_multiset_axioms;

    let ghost original: Seq<ItemDetails> = items@;
    let mut sorted_items: Vec<ItemDetails> = Vec::new();
    while items.len() > 0
        invariant
            sorted_items@.to_multiset().add(items@.to_multiset()) =~= original.to_multiset(),
            spec_sorted_by_arguments(sorted_items@, arguments@),
            forall|i: int, j: int|
                0 <= i < sorted_items@.len() && 0 <= j < items@.len() ==> spec_argument_rank(
                    arguments@,
                    sorted_items@[i].id,
                ) <= spec_argument_rank(arguments@, items@[j].id),
        decreases items.len(),
    {
        let mut min_index: usize = 0;
        let mut min_rank: usize = position_of_id(arguments, items[0].id);
        let mut k: usize = 1;
        while k < items.len()
            invariant
                items@.len() > 0,
                1 <= k <= items@.len(),
                min_index < k,
                min_rank as int == spec_argument_rank(arguments@, items@[min_index as int].id),
                forall|t: int|
                    0 <= t < k ==> min_rank as int <= spec_argument_rank(
                        arguments@,
                        items@[t].id,
                    ),
            decreases items.len() - k,
        {
            let rank = position_of_id(arguments, items[k].id);
            if rank < min_rank {
                min_rank = rank;
                min_index = k;
            }
            k = k + 1;
        }
        let ghost items_before: Seq<ItemDetails> = items@;
        let ghost sorted_before: Seq<ItemDetails> = sorted_items@;
        let next = items.remove(min_index);
        sorted_items.push(next);
        proof {
            assert(items@ == items_before.remove(min_index as int));
            assert(next == items_before[min_index as int]);
            vstd::seq_lib::to_multiset_remove(items_before, min_index as int);
            assert(items_before.remove(min_index as int).to_multiset() =~= items_before.to_multiset().remove(next));
            assert(sorted_items@ == sorted_before.push(next));
            vstd::seq_lib::to_multiset_build(sorted_before, next);
            assert(sorted_before.push(next).to_multiset() =~= sorted_before.to_multiset().insert(next));
            assert(items_before.contains(next));
            vstd::seq_lib::to_multiset_contains(items_before, next);
            assert(items_before.to_multiset().count(next) > 0);
            assert(sorted_items@.to_multiset().add(items@.to_multiset()) =~= original.to_multiset());
            assert forall|i: int, j: int|
                0 <= i < sorted_items@.len() && 0 <= j < items@.len() implies spec_argument_rank(
                arguments@,
                sorted_items@[i].id,
            ) <= spec_argument_rank(arguments@, items@[j].id) by {
                if j < min_index {
                    assert(items@[j] == items_before[j]);
                } else {
                    assert(items@[j] == items_before[j + 1]);
                }
                if i < sorted_before.len() {
                    assert(sorted_items@[i] == sorted_before[i]);
                } else {
                    assert(sorted_items@[i] == next);
                }
            }
            assert(spec_sorted_by_arguments(sorted_items@, arguments@));
        }
    }
    proof {
        assert(items@.to_multiset().len() == 0);
        assert(items@.to_multiset() =~= vstd::multiset::Multiset::<ItemDetails>::empty());
        assert(sorted_items@.to_multiset().add(items@.to_multiset())
            =~= sorted_items@.to_multiset());
    }
    let ghost sorted_final: Seq<ItemDetails> = sorted_items@;
    items.append(&mut sorted_items);
    proof {
        assert(items@ =~= sorted_final);
    }
}

/// The product ids of the details that carry one, in order.
pub open spec fn spec_product_ids(details: Seq<ItemDetails>) -> Seq<u64>
    decreases details.len(),
{
    if details.len() == 0 {
        Seq::<u64>::empty()
    } else {
        let prefix = spec_product_ids(details.drop_last());
        match details.last().product_id {
            Some(product_id) => prefix.push(product_id),
            None => prefix,
        }
    }
}

/// The collectible item ids of the details that carry one, in order.
pub open spec fn spec_collectible_item_ids(details: Seq<ItemDetails>) -> Seq<String>
    decreases details.len(),
{
    if details.len() == 0 {
        Seq::<String>::empty()
    } else {
        let prefix = spec_collectible_item_ids(details.drop_last());
        match details.last().collectible_item_id {
            Some(collectible_item_id) => prefix.push(collectible_item_id),
            None => prefix,
        }
    }
}

/// Reads the product id of the first fetched detail entry; a missing
/// entry or a detail without a product id is a malformed response.
pub fn product_id_from_details(details: &Vec<ItemDetails>) -> (r: Result<u64, RoboatError>)
    ensures
        details@.len() > 0 && details@[0].product_id is Some ==> r == Ok::<u64, RoboatError>(
            details@[0].product_id->0,
        ),
        details@.len() == 0 || details@[0].product_id is None ==> r == Err::<u64, RoboatError>(
            RoboatError::MalformedResponse,
        ),
{
    if details.len() == 0 {
        return Err(RoboatError::MalformedResponse);
    }
    match details[0].product_id {
        Some(product_id) => Ok(product_id),
        None => Err(RoboatError::MalformedResponse),
    }
}

/// Reads the collectible item id of the first fetched detail entry; a
/// missing entry or a detail without one is a malformed response.
pub fn collectible_item_id_from_details(details: &Vec<ItemDetails>) -> (r: Result<
    String,
    RoboatError,
>)
    ensures
        details@.len() > 0 && details@[0].collectible_item_id is Some ==> (r matches Ok(id)
            && id == details@[0].collectible_item_id->0),
        details@.len() == 0 || details@[0].collectible_item_id is None ==> (r matches Err(e)
            && e is MalformedResponse),
{
    if details.len() == 0 {
        return Err(RoboatError::MalformedResponse);
    }
    match &details[0].collectible_item_id {
        Some(collectible_item_id) => Ok(collectible_item_id.clone()),
        None => Err(RoboatError::MalformedResponse),
    }
}

/// Collects the product ids of the fetched details, in order. The call
/// succeeds exactly when every requested item contributed one product id;
/// anything short of that is a malformed response.
pub fn product_ids_from_details(details: &Vec<ItemDetails>, expected_len: usize) -> (r: Result<
    Vec<u64>,
    RoboatError,
>)
    ensures
        r is Ok <==> spec_product_ids(details@).len() == expected_len,
        r matches Ok(ids) ==> ids@ == spec_product_ids(details@),
        r matches Err(e) ==> e is MalformedResponse,
{
    let mut ids: Vec<u64> = Vec::new();
    let mut i: usize = 0;
    proof {
        assert(ids@ =~= spec_product_ids(details@.take(0)));
    }
    while i < details.len()
        invariant
            i <= details.len(),
            ids@ == spec_product_ids(details@.take(i as int)),
        decreases details.len() - i,
    {
        if let Some(product_id) = details[i].product_id {
            ids.push(product_id);
        }
        i = i + 1;
        proof {
            let taken = details@.take(i as int);
            assert(taken.drop_last() =~= details@.take(i as int - 1));
            assert(taken.last() == details@[i as int - 1]);
            assert(ids@ =~= spec_product_ids(taken));
        }
    }
    proof {
        assert(details@.take(details@.len() as int) =~= details@);
    }
    if ids.len() != expected_len {
        return Err(RoboatError::MalformedResponse);
    }
    Ok(ids)
}

/// Collects the collectible item ids of the fetched details, in order.
/// The call succeeds exactly when every requested item contributed one
/// collectible item id; anything short of that is a malformed response.
pub fn collectible_item_ids_from_details(details: &Vec<ItemDetails>, expected_len: usize) -> (r:
    Result<Vec<String>, RoboatError>)
    ensures
        r is Ok <==> spec_collectible_item_ids(details@).len() == expected_len,
        r matches Ok(ids) ==> ids@ == spec_collectible_item_ids(details@),
        r matches Err(e) ==> e is MalformedResponse,
{
    let mut ids: Vec<String> = Vec::new();
    let mut i: usize = 0;
    proof {
        assert(ids@ =~= spec_collectible_item_ids(details@.take(0)));
    }
    while i < details.len()
        invariant
            i <= details.len(),
            ids@ == spec_collectible_item_ids(details@.take(i as int)),
        decreases details.len() - i,
    {
        if let Some(collectible_item_id) = &details[i].collectible_item_id {
            ids.push(collectible_item_id.clone());
        }
        i = i + 1;
        proof {
            let taken = details@.take(i as int);
            assert(taken.drop_last() =~= details@.take(i as int - 1));
            assert(taken.last() == details@[i as int - 1]);
            assert(ids@ =~= spec_collectible_item_ids(taken));
        }
    }
    proof {
        assert(details@.take(details@.len() as int) =~= details@);
    }
    if ids.len() != expected_len {
        return Err(RoboatError::MalformedResponse);
    }
    Ok(ids)
}

} // verus!
