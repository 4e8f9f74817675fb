use soundboard::display::make_soundbot_controls;
use soundboard::display::ButtonLabel;
use soundboard::codec::{ListKind, ButtonCustomId, DisplayType, PageDirection, PaginateId};
use soundboard::config::Config;
use soundboard::display::{make_display_title, make_paginate_controls, truncate_button_label};
use soundboard::paging::PaginateInfo;

#[test]
fn titles_name_the_list_and_page() {
    let info = PaginateInfo::compute(45, 20, 20);
    assert_eq!(
        make_display_title(DisplayType::All, &info, ""),
        "### All Sounds (page 2 of 2)..."
    );
    assert_eq!(
        make_display_title(DisplayType::Search, &info, "r2d2"),
        "### Search Results `r2d2` (page 2 of 2)..."
    );
    assert_eq!(
        make_display_title(DisplayType::MostPlayed, &PaginateInfo::compute(0, 0, 20), ""),
        "### Most Played Sounds (page 0 of 0)..."
    );
}

#[test]
fn long_labels_are_cut() {
    let long = "x".repeat(81);
    let cut = truncate_button_label(&long);
    assert_eq!(cut.chars().count(), 80);
    assert!(cut.ends_with("..."));
    assert_eq!(truncate_button_label(&"y".repeat(80)), "y".repeat(80));
    let wide = "é".repeat(90);
    assert_eq!(truncate_button_label(&wide), format!("{}...", "é".repeat(77)));
}

#[test]
fn controls_lead_to_the_offsets() {
    let info = PaginateInfo::compute(45, 20, 20);
    let controls = make_paginate_controls(DisplayType::Pinned, &info, "");
    assert_eq!(controls.len(), 4);
    assert_eq!(controls[0].direction, PageDirection::First);
    assert!(!controls[0].disabled);
    assert_eq!(
        ButtonCustomId::decode(&controls[2].custom_id).unwrap(),
        ButtonCustomId::Paginate(PaginateId::Listing(ListKind::Pinned, PageDirection::Next, 40))
    );
    assert!(controls[3].disabled);
    let search = make_paginate_controls(DisplayType::Search, &info, "han");
    assert_eq!(
        ButtonCustomId::decode(&search[1].custom_id).unwrap(),
        ButtonCustomId::Paginate(PaginateId::Search(PageDirection::Prev, 0, "han".into()))
    );
}

#[test]
fn config_defaults_and_checks() {
    let c = Config::default();
    assert_eq!(c.audio_dir, "./audio");
    assert_eq!(c.command_prefix, "sb:");
    assert_eq!(c.max_page_size, 20);
    assert_eq!(c.max_audio_file_duration_ms, 7000);
    assert!(c.validate(true, true).is_ok());
    assert!(c.validate(false, false).is_err());
    assert!(c.validate(true, false).is_err());
}

#[test]
fn control_panel_marks_the_selected_list() {
    let controls = make_soundbot_controls(Some(DisplayType::Pinned));
    assert_eq!(controls.menu_custom_id, "sound_bot_display_menu");
    assert_eq!(controls.options.len(), 4);
    assert_eq!(controls.options[1].label, "Pinned Sounds");
    assert_eq!(controls.options[1].value, "sound_bot_display_menu_item_pinned");
    assert!(controls.options[1].selected);
    assert!(!controls.options[0].selected);
    assert_eq!(controls.buttons[0].custom_id, "sound_bot_search");
    assert_eq!(controls.buttons[1].custom_id, "sound_bot_play_random");
}

#[test]
fn button_labels_use_the_cut() {
    assert_eq!("short".to_button_label(), "short");
    assert_eq!("z".repeat(100).to_button_label().chars().count(), 80);
}
