use roboat::bedev2::{
    classify_purchase_result, NonTradableLimitedDetails, NonTradableLimitedDetailsRaw,
    PurchaseNonTradableLimitedError,
};
use roboat::catalog::CreatorType;
use roboat::economy::{
    listings_from_response, sales_from_response, ListingRaw, ResellerRaw, SaleDetailsRaw, SaleRaw,
    SaleUserRaw,
};
use roboat::friends::OriginSource;
use roboat::groups::{members_from_response, MemberRaw};
use roboat::presence::PresenceType;
use roboat::private_messages::{
    messages_from_response, MessagePartyRaw, MessageRaw, MessagesResponse, MessageTabType,
};
use roboat::text::u64_to_string;
use roboat::users::{
    username_user_details_from_response, users_from_search, UserSearchUserInformationRaw,
    UsernameUserInformationRaw,
};
use roboat::{ChallengeType, Limit, RoboatError};

#[test]
fn limits_convert_to_their_numbers() {
    assert_eq!(Limit::Ten.to_u64(), 10);
    assert_eq!(Limit::TwentyFive.to_u64(), 25);
    assert_eq!(Limit::Fifty.to_u64(), 50);
    assert_eq!(Limit::Hundred.to_u64(), 100);
}

#[test]
fn decimal_rendering_matches_standard_formatting() {
    assert_eq!(u64_to_string(0), "0");
    assert_eq!(u64_to_string(7), "7");
    assert_eq!(u64_to_string(1200), "1200");
    assert_eq!(u64_to_string(u64::MAX), "18446744073709551615");
}

#[test]
fn challenge_type_parses_only_the_known_name() {
    assert_eq!(ChallengeType::try_from("twostepverification").unwrap(), ChallengeType::TwoStep);
    assert!(matches!(ChallengeType::try_from("captcha"), Err(RoboatError::MalformedResponse)));
}

#[test]
fn presence_type_codes_decode() {
    assert_eq!(PresenceType::try_from(0).unwrap(), PresenceType::Offline);
    assert_eq!(PresenceType::try_from(4).unwrap(), PresenceType::Invisible);
    assert!(matches!(PresenceType::try_from(5), Err(RoboatError::MalformedResponse)));
}

#[test]
fn origin_source_codes_decode_with_unknown_fallback() {
    assert_eq!(OriginSource::from(1), OriginSource::PlayerSearch);
    assert_eq!(OriginSource::from(9), OriginSource::FriendRecommendations);
    assert_eq!(OriginSource::from(200), OriginSource::Unknown);
    assert_eq!(OriginSource::default(), OriginSource::Unknown);
}

#[test]
fn message_tabs_match_the_url_segments() {
    assert_eq!(MessageTabType::Inbox.as_str(), "inbox");
    assert_eq!(MessageTabType::Sent.as_str(), "sent");
    assert_eq!(MessageTabType::Archive.as_str(), "archive");
}

#[test]
fn successful_purchases_classify_as_ok() {
    assert!(classify_purchase_result(true, "Purchased".to_string(), None).is_ok());
}

#[test]
fn purchase_error_messages_map_to_domain_errors() {
    let err = classify_purchase_result(
        false,
        "NoValue".to_string(),
        Some("PriceMismatch".to_string()),
    )
    .unwrap_err();
    assert!(matches!(
        err,
        RoboatError::PurchaseNonTradableLimitedError(PurchaseNonTradableLimitedError::PriceMismatch)
    ));

    let err = classify_purchase_result(
        false,
        "NoValue".to_string(),
        Some("QuantityExhausted".to_string()),
    )
    .unwrap_err();
    assert!(matches!(
        err,
        RoboatError::PurchaseNonTradableLimitedError(PurchaseNonTradableLimitedError::SoldOut)
    ));
}

#[test]
fn unknown_purchase_errors_carry_the_purchase_result() {
    let err = classify_purchase_result(
        false,
        "SomethingOdd".to_string(),
        Some("BrandNewError".to_string()),
    )
    .unwrap_err();
    assert!(matches!(
        err,
        RoboatError::PurchaseNonTradableLimitedError(
            PurchaseNonTradableLimitedError::UnknownRobloxErrorMsg(msg)
        ) if msg == "SomethingOdd"
    ));
}

#[test]
fn purchase_without_error_message_is_malformed() {
    let err = classify_purchase_result(false, "Failure".to_string(), None).unwrap_err();
    assert!(matches!(err, RoboatError::MalformedResponse));
}

#[test]
fn non_tradable_limited_details_map_the_raw_fields() {
    let raw = NonTradableLimitedDetailsRaw {
        collectible_item_id: "item-id".to_string(),
        name: "Hat".to_string(),
        description: "A hat".to_string(),
        collectible_product_id: "product-id".to_string(),
        creator_has_verified_badge: false,
        creator_type: CreatorType::Group,
        item_target_id: 13119979433,
        creator_id: 3190902,
        creator_name: "A Group".to_string(),
        price: 5,
        lowest_price: 5,
        units_available_for_consumption: 12,
        off_sale_deadline: String::new(),
        asset_stock: 1000,
        error_code: None,
    };
    let details = NonTradableLimitedDetails::try_from(raw).unwrap();
    assert_eq!(details.item_id, 13119979433);
    assert_eq!(details.collectible_item_id, "item-id");
    assert_eq!(details.collectible_product_id, "product-id");
    assert_eq!(details.creator_type, CreatorType::Group);
    assert_eq!(details.remaining_stock, 12);
    assert_eq!(details.total_stock, 1000);
    assert_eq!(details.error_code, None);
}

#[test]
fn user_search_entries_become_users() {
    let data = vec![UserSearchUserInformationRaw {
        id: 2207291,
        name: "linkmon99".to_string(),
        has_verified_badge: true,
        previous_usernames: vec![],
        display_name: "linkmon".to_string(),
    }];
    let users = users_from_search(data);
    assert_eq!(users.len(), 1);
    assert_eq!(users[0].user_id, 2207291);
    assert_eq!(users[0].username, "linkmon99");
    assert_eq!(users[0].display_name, "linkmon");
}

#[test]
fn username_lookups_keep_the_requested_name() {
    let data = vec![UsernameUserInformationRaw {
        requested_username: "builderman".to_string(),
        has_verified_badge: true,
        id: 156,
        name: "Builderman".to_string(),
        display_name: "Builderman".to_string(),
    }];
    let details = username_user_details_from_response(data);
    assert_eq!(details.len(), 1);
    assert_eq!(details[0].requested_username, "builderman");
    assert_eq!(details[0].id, 156);
    assert!(details[0].has_verified_badge);
}

#[test]
fn role_members_become_users() {
    let data = vec![MemberRaw {
        has_verified_badge: false,
        user_id: 44,
        username: "member".to_string(),
        display_name: "Member".to_string(),
    }];
    let members = members_from_response(data);
    assert_eq!(members.len(), 1);
    assert_eq!(members[0].user_id, 44);
    assert_eq!(members[0].username, "member");
}

#[test]
fn reseller_listings_are_reshaped() {
    let data = vec![ListingRaw {
        user_asset_id: 987,
        seller: ResellerRaw { has_verified_badge: false, id: 55, name: "seller".to_string() },
        price: 4999,
        serial_number: Some(3),
    }];
    let listings = listings_from_response(data);
    assert_eq!(listings.len(), 1);
    assert_eq!(listings[0].uaid, 987);
    assert_eq!(listings[0].price, 4999);
    assert_eq!(listings[0].reseller.user_id, 55);
    assert_eq!(listings[0].serial_number, Some(3));
}

#[test]
fn sale_history_entries_are_reshaped() {
    let data = vec![SaleRaw {
        sale_id: 1,
        is_pending: false,
        user: SaleUserRaw { id: 9, user_display_name: "buyer".to_string() },
        details: SaleDetailsRaw { id: 77, item_name: "Shirt".to_string() },
        currency_amount: 70,
    }];
    let sales = sales_from_response(data);
    assert_eq!(sales.len(), 1);
    assert_eq!(sales[0].sale_id, 1);
    assert_eq!(sales[0].user_id, 9);
    assert_eq!(sales[0].robux_received, 70);
    assert_eq!(sales[0].asset_id, 77);
    assert_eq!(sales[0].asset_name, "Shirt");
}

#[test]
fn message_pages_are_reshaped_with_their_metadata() {
    let party = |id: i64, name: &str| MessagePartyRaw {
        has_verified_badge: false,
        id,
        name: name.to_string(),
        display_name: name.to_string(),
    };
    let raw = MessagesResponse {
        collection: vec![MessageRaw {
            id: 1000,
            sender: party(1, "alice"),
            recipient: party(2, "bob"),
            subject: "hello".to_string(),
            body: "hi there".to_string(),
            created: "2023-01-01T00:00:00Z".to_string(),
            updated: "2023-01-01T00:00:00Z".to_string(),
            is_read: false,
            is_system_message: false,
        }],
        total_collection_size: 41,
        total_pages: 3,
        page_number: 0,
    };
    let (messages, metadata) = messages_from_response(raw);
    assert_eq!(messages.len(), 1);
    assert_eq!(messages[0].message_id, 1000);
    assert_eq!(messages[0].sender_username, "alice");
    assert_eq!(messages[0].receiver_username, "bob");
    assert_eq!(messages[0].subject, "hello");
    assert!(!messages[0].is_read);
    assert_eq!(metadata.total_message_count, 41);
    assert_eq!(metadata.total_pages, 3);
}

fn non_tradable_details(collectible_item_id: &str, product_id: &str, creator_id: u64) -> NonTradableLimitedDetails {
    NonTradableLimitedDetails::try_from(NonTradableLimitedDetailsRaw {
        collectible_item_id: collectible_item_id.to_string(),
        name: "Hat".to_string(),
        description: String::new(),
        collectible_product_id: product_id.to_string(),
        creator_has_verified_badge: false,
        creator_type: CreatorType::User,
        item_target_id: 1,
        creator_id,
        creator_name: "Creator".to_string(),
        price: 0,
        lowest_price: 0,
        units_available_for_consumption: 0,
        off_sale_deadline: String::new(),
        asset_stock: 0,
        error_code: None,
    })
    .unwrap()
}

#[test]
fn collectible_product_ids_come_from_the_first_details() {
    let details = vec![
        non_tradable_details("item-a", "product-a", 5),
        non_tradable_details("item-b", "product-b", 6),
    ];
    assert_eq!(
        roboat::bedev2::collectible_product_id_from_details(&details).unwrap(),
        "product-a"
    );
    assert_eq!(roboat::bedev2::collectible_creator_id_from_details(&details).unwrap(), 5);
    assert_eq!(
        roboat::bedev2::collectible_product_ids_from_details(&details, 2).unwrap(),
        vec!["product-a".to_string(), "product-b".to_string()]
    );
    assert!(matches!(
        roboat::bedev2::collectible_product_ids_from_details(&details, 3),
        Err(RoboatError::MalformedResponse)
    ));
    let empty: Vec<NonTradableLimitedDetails> = vec![];
    assert!(matches!(
        roboat::bedev2::collectible_product_id_from_details(&empty),
        Err(RoboatError::MalformedResponse)
    ));
}

#[test]
fn non_tradable_details_are_sorted_into_argument_order() {
    let arguments = vec!["item-a".to_string(), "item-b".to_string(), "item-c".to_string()];
    let mut details = vec![
        non_tradable_details("item-c", "product-c", 3),
        non_tradable_details("item-a", "product-a", 1),
        non_tradable_details("item-b", "product-b", 2),
    ];
    roboat::bedev2::sort_items_by_argument_order(&mut details, &arguments);
    let ids: Vec<String> = details.iter().map(|d| d.collectible_item_id.clone()).collect();
    assert_eq!(ids, arguments);
}
