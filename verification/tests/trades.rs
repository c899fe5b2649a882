use roboat::trades::{
    trade_details_from_response, trades_from_response, trades_url, OfferRaw, TradeDetailsResponse,
    TradeRaw, TradeStatus, TradeType, TradeUserRaw, UserAssetRaw,
};
use roboat::{Limit, RoboatError};

fn trade_user(id: i64, name: &str, display_name: &str) -> TradeUserRaw {
    TradeUserRaw { id, name: name.to_string(), display_name: display_name.to_string() }
}

fn details_response(offers: Vec<OfferRaw>, status: &str) -> TradeDetailsResponse {
    TradeDetailsResponse {
        offers,
        id: 555,
        created: "2023-04-01T00:00:00Z".to_string(),
        expiration: Some("2023-04-05T00:00:00Z".to_string()),
        is_active: true,
        status: status.to_string(),
    }
}

#[test]
fn trades_url_is_built_from_type_cursor_and_limit() {
    assert_eq!(
        trades_url(TradeType::Inbound, Limit::Ten, &None),
        "https://trades.roblox.com/v1/trades/inbound?sortOrder=Desc&cursor=&limit=10"
    );
    assert_eq!(
        trades_url(TradeType::Completed, Limit::Hundred, &Some("abc123".to_string())),
        "https://trades.roblox.com/v1/trades/completed?sortOrder=Desc&cursor=abc123&limit=100"
    );
}

#[test]
fn trade_status_names_parse() {
    assert_eq!(TradeStatus::from_str("Open").unwrap(), TradeStatus::Open);
    assert_eq!(TradeStatus::from_str("RejectedDueToError").unwrap(), TradeStatus::RejectedDueToError);
    assert!(matches!(TradeStatus::from_str("open"), Err(RoboatError::MalformedResponse)));
}

#[test]
fn trade_list_entries_are_reshaped_in_order() {
    let data = vec![
        TradeRaw {
            id: 900,
            user: trade_user(7, "partner_one", "Partner One"),
            created: "2023-01-01T00:00:00Z".to_string(),
            expiration: "2023-01-05T00:00:00Z".to_string(),
            is_active: true,
            status: TradeStatus::Open,
        },
        TradeRaw {
            id: 901,
            user: trade_user(8, "partner_two", "Partner Two"),
            created: "2023-01-02T00:00:00Z".to_string(),
            expiration: "2023-01-06T00:00:00Z".to_string(),
            is_active: false,
            status: TradeStatus::Declined,
        },
    ];
    let trades = trades_from_response(data);
    assert_eq!(trades.len(), 2);
    assert_eq!(trades[0].trade_id, 900);
    assert_eq!(trades[0].partner.user_id, 7);
    assert_eq!(trades[0].partner.username, "partner_one");
    assert!(trades[0].is_active);
    assert_eq!(trades[0].status, TradeStatus::Open);
    assert_eq!(trades[1].trade_id, 901);
    assert_eq!(trades[1].partner.display_name, "Partner Two");
    assert_eq!(trades[1].status, TradeStatus::Declined);
}

#[test]
fn trade_details_map_both_sides_of_the_trade() {
    let your_offer = OfferRaw {
        user: trade_user(1, "me", "Me"),
        user_assets: vec![UserAssetRaw {
            id: 5000,
            serial_number: Some(42),
            asset_id: 1365767,
            name: "Valkyrie Helm".to_string(),
            recent_average_price: 40000,
        }],
        robux: 100,
    };
    let partner_offer = OfferRaw {
        user: trade_user(2, "partner", "Partner"),
        user_assets: vec![UserAssetRaw {
            id: 6000,
            serial_number: None,
            asset_id: 1029025,
            name: "Dominus".to_string(),
            recent_average_price: 90000,
        }],
        robux: 0,
    };
    let details =
        trade_details_from_response(details_response(vec![your_offer, partner_offer], "Open"))
            .unwrap();
    assert_eq!(details.partner.user_id, 2);
    assert_eq!(details.partner.username, "partner");
    assert_eq!(details.your_items.len(), 1);
    assert_eq!(details.your_items[0].item_id, 1365767);
    assert_eq!(details.your_items[0].serial_number, Some(42));
    assert_eq!(details.your_items[0].uaid, 5000);
    assert_eq!(details.your_items[0].rap, 40000);
    assert_eq!(details.partner_items[0].name, "Dominus");
    assert_eq!(details.partner_items[0].serial_number, None);
    assert_eq!(details.your_robux, 100);
    assert_eq!(details.partner_robux, 0);
    assert_eq!(details.status, TradeStatus::Open);
    assert!(details.is_active);
    assert_eq!(details.expiration.as_deref(), Some("2023-04-05T00:00:00Z"));
}

#[test]
fn trade_details_with_one_offer_are_malformed() {
    let only_offer = OfferRaw { user: trade_user(1, "me", "Me"), user_assets: vec![], robux: 0 };
    let err = trade_details_from_response(details_response(vec![only_offer], "Open")).unwrap_err();
    assert!(matches!(err, RoboatError::MalformedResponse));
}

#[test]
fn trade_details_with_unknown_status_are_malformed() {
    let your_offer = OfferRaw { user: trade_user(1, "me", "Me"), user_assets: vec![], robux: 0 };
    let partner_offer =
        OfferRaw { user: trade_user(2, "partner", "Partner"), user_assets: vec![], robux: 0 };
    let err =
        trade_details_from_response(details_response(vec![your_offer, partner_offer], "Pending"))
            .unwrap_err();
    assert!(matches!(err, RoboatError::MalformedResponse));
}

#[test]
fn trade_type_names_match_the_url_segments() {
    assert_eq!(TradeType::Inbound.as_str(), "inbound");
    assert_eq!(TradeType::Outbound.as_str(), "outbound");
    assert_eq!(TradeType::Completed.as_str(), "completed");
    assert_eq!(TradeType::Inactive.as_str(), "inactive");
}
