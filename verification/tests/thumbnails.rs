use roboat::thumbnails::{
    generate_format, generate_request_id_string, generate_thumbnail_type_string, image_urls_of,
    sort_url_datas_by_argument_order, AssetThumbnailUrlDataRaw, ThumbnailSize, ThumbnailType,
};

fn url_data(target_id: i64, image_url: &str) -> AssetThumbnailUrlDataRaw {
    AssetThumbnailUrlDataRaw {
        request_id: String::new(),
        error_code: 0,
        error_message: String::new(),
        target_id,
        state: "Completed".to_string(),
        image_url: image_url.to_string(),
    }
}

#[test]
fn request_id_strings_follow_each_types_shape() {
    assert_eq!(
        generate_request_id_string(ThumbnailType::Avatar, 20418400, ThumbnailSize::S420x420),
        "20418400:undefined:Avatar:420x420:null:regular"
    );
    assert_eq!(
        generate_request_id_string(
            ThumbnailType::AvatarHeadshot,
            20418400,
            ThumbnailSize::S60x62
        ),
        "20418400:undefined:AvatarHeadshot:60x62:null:regular"
    );
    assert_eq!(
        generate_request_id_string(ThumbnailType::Asset, 1365767, ThumbnailSize::S30x30),
        "1365767::Asset:30x30:png:regular"
    );
}

#[test]
fn thumbnail_type_strings_use_the_odd_headshot_capitalization() {
    assert_eq!(generate_thumbnail_type_string(ThumbnailType::Avatar), "Avatar");
    assert_eq!(generate_thumbnail_type_string(ThumbnailType::AvatarHeadshot), "AvatarHeadShot");
    assert_eq!(generate_thumbnail_type_string(ThumbnailType::Asset), "Asset");
}

#[test]
fn only_asset_thumbnails_name_a_format() {
    assert_eq!(generate_format(ThumbnailType::Avatar), None);
    assert_eq!(generate_format(ThumbnailType::AvatarHeadshot), None);
    assert_eq!(generate_format(ThumbnailType::Asset), Some("png".to_string()));
}

#[test]
fn size_names_are_width_by_height() {
    assert_eq!(ThumbnailSize::S420x420.as_str(), "420x420");
    assert_eq!(ThumbnailSize::S1200x80.as_str(), "1200x80");
    assert_eq!(ThumbnailSize::S60x62.as_str(), "60x62");
}

#[test]
fn url_datas_are_sorted_into_argument_order() {
    let arguments = vec![111, 222, 333];
    let mut datas = vec![
        url_data(333, "https://cdn.example/333"),
        url_data(111, "https://cdn.example/111"),
        url_data(222, "https://cdn.example/222"),
    ];
    sort_url_datas_by_argument_order(&mut datas, &arguments);
    let ids: Vec<i64> = datas.iter().map(|d| d.target_id).collect();
    assert_eq!(ids, vec![111, 222, 333]);

    let urls = image_urls_of(&datas);
    assert_eq!(
        urls,
        vec![
            "https://cdn.example/111".to_string(),
            "https://cdn.example/222".to_string(),
            "https://cdn.example/333".to_string(),
        ]
    );
}

#[test]
fn unrequested_target_ids_go_last() {
    let arguments = vec![222];
    let mut datas = vec![url_data(999, "https://cdn.example/999"), url_data(222, "https://cdn.example/222")];
    sort_url_datas_by_argument_order(&mut datas, &arguments);
    let ids: Vec<i64> = datas.iter().map(|d| d.target_id).collect();
    assert_eq!(ids, vec![222, 999]);
}
