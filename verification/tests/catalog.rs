use roboat::catalog::catalog_types::QueryLimit;
use roboat::catalog::request_types::ItemDetailsRaw;
use roboat::catalog::{
    sort_items_by_argument_order, AssetType, AvatarSearchQueryBuilder, BundleType,
    CatalogQueryLimit, Category, CreatorType, Item, ItemDetails, ItemType, QueryGenre,
    SaleLocationType, SalesTypeFilter, SortAggregation, SortType, Subcategory,
};
use roboat::RoboatError;

fn empty_raw_details() -> ItemDetailsRaw {
    ItemDetailsRaw {
        id: None,
        item_type: None,
        bundle_type: None,
        asset_type: None,
        name: None,
        description: None,
        product_id: None,
        genres: None,
        item_status: None,
        item_restrictions: None,
        creator_has_verified_badge: None,
        creator_type: None,
        creator_target_id: None,
        creator_name: None,
        price: None,
        lowest_price: None,
        lowest_resale_price: None,
        favorite_count: None,
        purchase_count: None,
        premium_pricing: None,
        price_status: None,
        collectible_item_id: None,
        total_quantity: None,
        has_resellers: None,
        is_off_sale: None,
        remaining_stock: None,
        total_stock: None,
        quantity_limit_per_user: None,
        sale_location_type: None,
        units_available_for_consumption: None,
    }
}

fn complete_raw_details() -> ItemDetailsRaw {
    let mut raw = empty_raw_details();
    raw.id = Some(1365767);
    raw.item_type = Some(ItemType::Asset);
    raw.asset_type = Some(8);
    raw.name = Some("Valkyrie Helm".to_string());
    raw.description = Some("A helm".to_string());
    raw.creator_has_verified_badge = Some(true);
    raw.creator_type = Some(CreatorType::User);
    raw.creator_target_id = Some(1);
    raw.creator_name = Some("Roblox".to_string());
    raw.price = Some(50000);
    raw.sale_location_type = Some("ShopAndAllExperiences".to_string());
    raw.units_available_for_consumption = Some(3);
    raw.total_quantity = Some(100);
    raw
}

#[test]
fn empty_query_url_is_the_base_url() {
    let query = AvatarSearchQueryBuilder::new().build();
    assert_eq!(query.to_url(), "https://catalog.roblox.com/v1/search/items?");
}

#[test]
fn single_parameter_query_has_no_trailing_ampersand() {
    let query = AvatarSearchQueryBuilder::new().category(Category::Featured).build();
    assert_eq!(query.to_url(), "https://catalog.roblox.com/v1/search/items?category=0");
}

#[test]
fn full_query_url_writes_parameters_in_order() {
    let query = AvatarSearchQueryBuilder::new()
        .category(Category::Accessories)
        .creator_name("Nike".to_string())
        .creator_id(9876543210)
        .creator_type(CreatorType::Group)
        .keyword("swoosh".to_string())
        .sort_aggregation(SortAggregation::PastWeek)
        .sort_type(SortType::Favorited)
        .subcategory(Subcategory::Transport)
        .min_price(5)
        .max_price(250)
        .limit(CatalogQueryLimit::HundredTwenty)
        .sales_type_filter(SalesTypeFilter::Collectibles)
        .build();
    assert_eq!(
        query.to_url(),
        "https://catalog.roblox.com/v1/search/items?category=11&creatorName=Nike&creatorTargetId=9876543210&creatorType=2&keyword=swoosh&sortAggregation=1&sortType=1&subcategory=49&minPrice=5&maxPrice=250&limit=120&salesTypeFilter=2"
    );
}

#[test]
fn genre_list_is_comma_terminated() {
    let query = AvatarSearchQueryBuilder::new()
        .query_genres(vec![QueryGenre::TownAndCity, QueryGenre::SciFi, QueryGenre::RPG])
        .keyword("castle".to_string())
        .build();
    assert_eq!(
        query.to_url(),
        "https://catalog.roblox.com/v1/search/items?genre=1,3,15,&keyword=castle"
    );
}

#[test]
fn builder_setters_fill_the_query() {
    let query = AvatarSearchQueryBuilder::new()
        .category(Category::Collectibles)
        .creator_id(77)
        .build();
    assert_eq!(query.category, Some(Category::Collectibles));
    assert_eq!(query.creator_id, Some(77));
    assert_eq!(query.creator_name, None);
    assert!(query.query_genres.is_empty());
}

#[test]
fn encoding_tables_match_the_service() {
    assert_eq!(Category::Featured.as_u8(), 0);
    assert_eq!(Category::Accessories.as_u8(), 11);
    assert_eq!(Category::CommunityCreations.as_u8(), 13);
    assert_eq!(Subcategory::Hats.as_u8(), 9);
    assert_eq!(Subcategory::Bundles.as_u8(), 37);
    assert_eq!(SortAggregation::AllTime.as_u8(), 3);
    assert_eq!(SortType::PriceDesc.as_u8(), 5);
    assert_eq!(SalesTypeFilter::Premium.as_u8(), 3);
    assert_eq!(CatalogQueryLimit::TwentyEight.as_u8(), 28);
    assert_eq!(QueryLimit::Thirty.as_u8(), 30);
    assert_eq!(QueryGenre::Building.as_u8(), 13);
    assert_eq!(CreatorType::User.as_u8(), 1);
    assert_eq!(CreatorType::Group.as_u8(), 2);
}

#[test]
fn asset_type_codes_decode() {
    assert_eq!(AssetType::try_from(8).unwrap(), AssetType::Hat);
    assert_eq!(AssetType::try_from(19).unwrap(), AssetType::Gear);
    assert_eq!(AssetType::try_from(79).unwrap(), AssetType::DynamicHead);
    assert!(matches!(AssetType::try_from(6), Err(RoboatError::MalformedResponse)));
    assert!(matches!(AssetType::try_from(0), Err(RoboatError::MalformedResponse)));
}

#[test]
fn bundle_type_codes_decode() {
    assert_eq!(BundleType::try_from(1).unwrap(), BundleType::BodyParts);
    assert_eq!(BundleType::try_from(2).unwrap(), BundleType::AvatarAnimations);
    assert!(matches!(BundleType::try_from(3), Err(RoboatError::MalformedResponse)));
}

#[test]
fn sale_location_names_parse_and_print() {
    assert_eq!(
        SaleLocationType::from_str("NotApplicable"),
        Some(SaleLocationType::NotApplicable)
    );
    assert_eq!(SaleLocationType::from_str("Game"), Some(SaleLocationType::Game));
    assert_eq!(SaleLocationType::from_str("Anywhere"), None);
    assert_eq!(SaleLocationType::ShopAndAllExperiences.as_str(), "ShopAndAllExperiences");
}

#[test]
fn item_details_conversion_maps_every_field() {
    let details = ItemDetails::try_from(complete_raw_details()).unwrap();
    assert_eq!(details.id, 1365767);
    assert_eq!(details.item_type, ItemType::Asset);
    assert_eq!(details.asset_type, Some(AssetType::Hat));
    assert_eq!(details.bundle_type, None);
    assert_eq!(details.name, "Valkyrie Helm");
    assert_eq!(details.description, "A helm");
    assert!(details.creator_has_verified_badge);
    assert_eq!(details.creator_type, CreatorType::User);
    assert_eq!(details.creator_id, 1);
    assert_eq!(details.creator_name, "Roblox");
    assert_eq!(details.price, Some(50000));
    assert_eq!(details.sale_location_type, Some(SaleLocationType::ShopAndAllExperiences));
    assert_eq!(details.units_available_for_consumption, Some(3));
    assert_eq!(details.remaining_stock, Some(3));
    assert_eq!(details.total_stock, Some(100));
}

#[test]
fn item_details_conversion_rejects_missing_required_fields() {
    let mut raw = complete_raw_details();
    raw.name = None;
    assert!(matches!(ItemDetails::try_from(raw), Err(RoboatError::MalformedResponse)));

    let mut raw = complete_raw_details();
    raw.creator_name = None;
    assert!(matches!(ItemDetails::try_from(raw), Err(RoboatError::MalformedResponse)));
}

#[test]
fn item_details_conversion_rejects_unknown_asset_type_codes() {
    let mut raw = complete_raw_details();
    raw.asset_type = Some(7);
    assert!(matches!(ItemDetails::try_from(raw), Err(RoboatError::MalformedResponse)));
}

fn details_with_id(id: u64) -> ItemDetails {
    let mut raw = complete_raw_details();
    raw.id = Some(id);
    ItemDetails::try_from(raw).unwrap()
}

#[test]
fn items_are_sorted_into_argument_order() {
    let arguments = vec![
        Item { item_type: ItemType::Asset, id: 10 },
        Item { item_type: ItemType::Asset, id: 20 },
        Item { item_type: ItemType::Bundle, id: 30 },
    ];
    let mut items = vec![details_with_id(30), details_with_id(10), details_with_id(20)];
    sort_items_by_argument_order(&mut items, &arguments);
    let ids: Vec<u64> = items.iter().map(|d| d.id).collect();
    assert_eq!(ids, vec![10, 20, 30]);
}

#[test]
fn items_with_unrequested_ids_go_last() {
    let arguments = vec![Item { item_type: ItemType::Asset, id: 20 }];
    let mut items = vec![details_with_id(99), details_with_id(20)];
    sort_items_by_argument_order(&mut items, &arguments);
    let ids: Vec<u64> = items.iter().map(|d| d.id).collect();
    assert_eq!(ids, vec![20, 99]);
}

#[test]
fn product_ids_are_collected_in_order() {
    let make = |id: u64, product_id: Option<u64>| {
        let mut raw = complete_raw_details();
        raw.id = Some(id);
        raw.product_id = product_id;
        ItemDetails::try_from(raw).unwrap()
    };
    let details = vec![make(1, Some(11)), make(2, Some(22)), make(3, Some(33))];
    let ids = roboat::catalog::product_ids_from_details(&details, 3).unwrap();
    assert_eq!(ids, vec![11, 22, 33]);

    // A detail without a product id makes the tally fall short.
    let details = vec![make(1, Some(11)), make(2, None)];
    assert!(matches!(
        roboat::catalog::product_ids_from_details(&details, 2),
        Err(RoboatError::MalformedResponse)
    ));

    let single = vec![make(9, Some(99))];
    assert_eq!(roboat::catalog::product_id_from_details(&single).unwrap(), 99);
    let missing = vec![make(9, None)];
    assert!(matches!(
        roboat::catalog::product_id_from_details(&missing),
        Err(RoboatError::MalformedResponse)
    ));
    let empty: Vec<ItemDetails> = vec![];
    assert!(matches!(
        roboat::catalog::product_id_from_details(&empty),
        Err(RoboatError::MalformedResponse)
    ));
}

#[test]
fn collectible_item_ids_are_collected_in_order() {
    let make = |id: u64, collectible: Option<&str>| {
        let mut raw = complete_raw_details();
        raw.id = Some(id);
        raw.collectible_item_id = collectible.map(|s| s.to_string());
        ItemDetails::try_from(raw).unwrap()
    };
    let details = vec![make(1, Some("aaa")), make(2, Some("bbb"))];
    let ids = roboat::catalog::collectible_item_ids_from_details(&details, 2).unwrap();
    assert_eq!(ids, vec!["aaa".to_string(), "bbb".to_string()]);

    assert_eq!(
        roboat::catalog::collectible_item_id_from_details(&details).unwrap(),
        "aaa"
    );
    let missing = vec![make(1, None)];
    assert!(matches!(
        roboat::catalog::collectible_item_id_from_details(&missing),
        Err(RoboatError::MalformedResponse)
    ));
}
