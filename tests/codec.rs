use soundboard::codec::{ListKind, ButtonCustomId, DisplayMenuItemCustomId, DisplayType, PageDirection, PaginateId};

fn round_trip(b: ButtonCustomId) {
    let token = b.encode();
    assert_eq!(ButtonCustomId::decode(&token).unwrap(), b);
}

#[test]
fn button_tokens_round_trip() {
    round_trip(ButtonCustomId::PlayAudio(42));
    round_trip(ButtonCustomId::PlayAudio(-7));
    round_trip(ButtonCustomId::PlayAudio(i64::MIN));
    round_trip(ButtonCustomId::PlayRandom);
    round_trip(ButtonCustomId::Search);
    round_trip(ButtonCustomId::AddMp3File);
    round_trip(ButtonCustomId::IgnoreMp3File);
    round_trip(ButtonCustomId::Unknown("something_else::1".to_string()));
    round_trip(ButtonCustomId::Paginate(PaginateId::Listing(
        ListKind::MostPlayed,
        PageDirection::Next,
        40,
    )));
    round_trip(ButtonCustomId::Paginate(PaginateId::Listing(
        ListKind::Pinned,
        PageDirection::Last,
        u64::MAX,
    )));
    round_trip(ButtonCustomId::Paginate(PaginateId::Search(
        PageDirection::Last,
        20,
        "star::wars".to_string(),
    )));
    round_trip(ButtonCustomId::Paginate(PaginateId::Search(
        PageDirection::First,
        0,
        String::new(),
    )));
}

#[test]
fn tokens_have_the_documented_shape() {
    assert_eq!(ButtonCustomId::PlayAudio(5).encode(), "sound_bot_play::5");
    assert_eq!(
        PaginateId::Listing(ListKind::RecentlyAdded, PageDirection::Prev, 20).encode(),
        "recently_added_prev_page::20"
    );
    assert_eq!(
        ButtonCustomId::Paginate(PaginateId::Search(PageDirection::Next, 3, "han solo".to_string()))
            .encode(),
        "sound_bot_paginate::search_next_page::3::han solo"
    );
    assert_eq!(
        ButtonCustomId::decode("sound_bot_paginate::search_last_page::60::r2d2").unwrap(),
        ButtonCustomId::Paginate(PaginateId::Search(PageDirection::Last, 60, "r2d2".to_string()))
    );
}

#[test]
fn malformed_offsets_are_errors() {
    assert!(PaginateId::decode("all_next_page::abc").is_err());
    assert!(PaginateId::decode("all_next_page").is_err());
    assert!(PaginateId::decode("all_next_page::18446744073709551616").is_err());
    assert!(ButtonCustomId::decode("sound_bot_play::x").is_err());
    assert!(ButtonCustomId::decode("sound_bot_play").is_err());
    assert!(ButtonCustomId::decode("sound_bot_paginate::pinned_first_page::-1").is_err());
    assert_eq!(
        PaginateId::decode("all_first_page::+7").unwrap(),
        PaginateId::Listing(ListKind::All, PageDirection::First, 7)
    );
}

#[test]
fn foreign_tokens_are_unknown() {
    assert_eq!(
        ButtonCustomId::decode("other_bot::9").unwrap(),
        ButtonCustomId::Unknown("other_bot::9".to_string())
    );
    assert_eq!(
        PaginateId::decode("all_sideways_page::1").unwrap(),
        PaginateId::Unknown("all_sideways_page::1".to_string())
    );
    assert_eq!(
        ButtonCustomId::decode("sound_bot_paginate").unwrap(),
        ButtonCustomId::Paginate(PaginateId::Unknown(String::new()))
    );
}

#[test]
fn menu_items_round_trip() {
    for item in [
        DisplayMenuItemCustomId::DisplayAll,
        DisplayMenuItemCustomId::DisplayPinned,
        DisplayMenuItemCustomId::DisplayMostPlayed,
        DisplayMenuItemCustomId::DisplayRecentlyAdded,
        DisplayMenuItemCustomId::Unknown("nope".to_string()),
    ] {
        assert_eq!(DisplayMenuItemCustomId::decode(&item.encode()), item);
    }
    assert_eq!(
        DisplayMenuItemCustomId::DisplayPinned.encode(),
        "sound_bot_display_menu_item_pinned"
    );
    assert_eq!(DisplayMenuItemCustomId::CUSTOM_ID, "sound_bot_display_menu");
    assert_eq!(
        DisplayMenuItemCustomId::DisplayMostPlayed.display_type(),
        DisplayType::MostPlayed
    );
    assert_eq!(
        DisplayMenuItemCustomId::Unknown("x".to_string()).display_type(),
        DisplayType::All
    );
    assert_eq!(
        DisplayType::Search.menu_item(),
        DisplayMenuItemCustomId::Unknown(String::new())
    );
}

#[test]
fn page_requests_name_their_target() {
    assert_eq!(
        PaginateId::Listing(ListKind::Pinned, PageDirection::Next, 20).target(),
        Some((DisplayType::Pinned, 20, String::new()))
    );
    assert_eq!(
        PaginateId::Search(PageDirection::Prev, 0, "han".to_string()).target(),
        Some((DisplayType::Search, 0, "han".to_string()))
    );
    assert_eq!(PaginateId::Unknown("x".to_string()).target(), None);
}
