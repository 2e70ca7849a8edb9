use spotify_player::config::{KeySequence, Keymap, Theme};
use spotify_player::geometry::Rect;
use spotify_player::popup::{anchored_list_popup_area, plan_popup, plan_popup_in, Device, PopupData, PopupDrawing};
use spotify_player::shortcut_help::{plan_shortcut_help_popup, plan_shortcut_help_popup_in, shortcut_help_entries, table_rows};
use spotify_player::text::ListLine;
use spotify_player::popup_state::{ListState, PlaylistCreateCurrentField, PlaylistPopupAction, PopupState};
use spotify_player::ui_state::{Orientation, UIState};

const SCREEN: Rect = Rect { x: 0, y: 0, width: 80, height: 24 };

fn ui_with(popup: Option<PopupState>) -> UIState {
    let mut ui = UIState::new(Theme { name: "default".to_string() }, Orientation::Vertical);
    ui.popup = popup;
    ui
}

fn no_data() -> PopupData {
    PopupData {
        devices: vec![],
        playback_device_id: None,
        folder_playlists: vec![],
        modifiable_playlists: vec![],
        followed_artists: vec![],
        saved_albums: vec![],
    }
}

fn unmarked(texts: &[&str]) -> Vec<ListLine> {
    texts.iter().map(|t| ListLine { text: t.to_string(), marked: false }).collect()
}

fn keymap(keys: &[&str], command: &str) -> Keymap {
    Keymap {
        key_sequence: KeySequence { keys: keys.iter().map(|k| k.to_string()).collect() },
        command: command.to_string(),
    }
}

#[test]
fn no_popup_leaves_the_whole_area_and_forgets_the_click() {
    let mut ui = ui_with(None);
    ui.mouse_popup_anchor = Some((3, 4));
    let plan = plan_popup(&mut ui, &no_data(), SCREEN);
    assert_eq!(plan.main_area, SCREEN);
    assert!(plan.focus_main);
    assert!(matches!(plan.drawing, PopupDrawing::Nothing));
    assert!(ui.mouse_popup_anchor.is_none());
}

#[test]
fn search_box_is_docked_at_the_bottom() {
    let mut ui = ui_with(Some(PopupState::Search { query: "abc".to_string() }));
    ui.mouse_popup_anchor = Some((3, 4));
    let plan = plan_popup(&mut ui, &no_data(), SCREEN);
    assert_eq!(plan.main_area, Rect { x: 0, y: 0, width: 80, height: 21 });
    assert!(plan.focus_main);
    match plan.drawing {
        PopupDrawing::TextBox { area, title, text } => {
            assert_eq!(area, Rect { x: 0, y: 21, width: 80, height: 3 });
            assert_eq!(title, "Search");
            assert_eq!(text, "/abc");
        }
        other => panic!("unexpected drawing {other:?}"),
    }
    // an open popup keeps the click position
    assert_eq!(ui.mouse_popup_anchor, Some((3, 4)));
}

#[test]
fn confirmation_asks_yes_or_no() {
    let mut ui = ui_with(Some(PopupState::ConfirmAction { message: "Delete playlist?".to_string() }));
    let plan = plan_popup(&mut ui, &no_data(), SCREEN);
    assert!(plan.focus_main);
    match plan.drawing {
        PopupDrawing::TextBox { title, text, .. } => {
            assert_eq!(title, "Confirm");
            assert_eq!(text, "Delete playlist? (y/n)");
        }
        other => panic!("unexpected drawing {other:?}"),
    }
}

#[test]
fn playlist_create_splits_the_bottom_row_in_halves() {
    let mut ui = ui_with(Some(PopupState::PlaylistCreate {
        name: "Mix".to_string(),
        desc: "for runs".to_string(),
        current_field: PlaylistCreateCurrentField::Desc,
    }));
    let plan = plan_popup(&mut ui, &no_data(), SCREEN);
    assert_eq!(plan.main_area, Rect { x: 0, y: 0, width: 80, height: 21 });
    assert!(plan.focus_main);
    match plan.drawing {
        PopupDrawing::PlaylistCreate { name_area, name_title, name_text, desc_area, desc_title, desc_text, name_focused } => {
            assert_eq!(name_area, Rect { x: 0, y: 21, width: 40, height: 3 });
            assert_eq!(desc_area, Rect { x: 40, y: 21, width: 40, height: 3 });
            assert_eq!(name_title, "Enter Name for New Playlist:");
            assert_eq!(desc_title, "Enter Description for New Playlist:");
            assert_eq!(name_text, "Mix");
            assert_eq!(desc_text, "for runs");
            assert!(!name_focused);
        }
        other => panic!("unexpected drawing {other:?}"),
    }
}

#[test]
fn action_list_opened_by_keyboard_is_docked() {
    let actions: Vec<String> = (0..11).map(|i| format!("action {i}")).collect();
    let mut ui = ui_with(Some(PopupState::ActionList {
        item_name: "Song".to_string(),
        actions,
        list: ListState::first_selected(),
    }));
    let plan = plan_popup(&mut ui, &no_data(), SCREEN);
    assert!(!plan.focus_main);
    // 11 actions and 2 border rows
    assert_eq!(plan.main_area, Rect { x: 0, y: 0, width: 80, height: 11 });
    match plan.drawing {
        PopupDrawing::List { area, title, lines, selected } => {
            assert_eq!(area, Rect { x: 0, y: 11, width: 80, height: 13 });
            assert_eq!(title, "Actions on Song");
            assert_eq!(lines[0].text, "[0] action 0");
            assert_eq!(lines[10].text, "[10] action 10");
            assert!(lines.iter().all(|l| !l.marked));
            assert_eq!(selected, Some(0));
        }
        other => panic!("unexpected drawing {other:?}"),
    }
}

#[test]
fn action_list_opened_by_right_click_is_anchored_at_the_click() {
    let mut ui = ui_with(Some(PopupState::ActionList {
        item_name: "Song".to_string(),
        actions: vec!["Play".to_string(), "Add to queue".to_string()],
        list: ListState::first_selected(),
    }));
    ui.mouse_popup_anchor = Some((10, 5));
    let plan = plan_popup(&mut ui, &no_data(), SCREEN);
    assert_eq!(plan.main_area, SCREEN);
    assert!(!plan.focus_main);
    match plan.drawing {
        // widest line is "[1] Add to queue" (16 chars) + 4 = 20 wide, 2 + 2 high
        PopupDrawing::List { area, .. } => assert_eq!(area, Rect { x: 10, y: 5, width: 20, height: 4 }),
        other => panic!("unexpected drawing {other:?}"),
    }
}

fn sample_data() -> PopupData {
    PopupData {
        devices: vec![
            Device { id: "d1".to_string(), name: "Laptop".to_string(), is_integrated: true },
            Device { id: "d2".to_string(), name: "Phone".to_string(), is_integrated: false },
        ],
        playback_device_id: Some(Some("d2".to_string())),
        folder_playlists: vec!["Chill Mix".to_string(), "Workout".to_string(), "chill beats".to_string()],
        modifiable_playlists: vec!["My Chill".to_string(), "Mine".to_string()],
        followed_artists: vec!["Artist A".to_string()],
        saved_albums: vec!["Album B".to_string(), "Album C".to_string()],
    }
}

#[test]
fn list_popups_have_their_titles_heights_and_lines() {
    let cases: Vec<(PopupState, &str, u16, Vec<ListLine>)> = vec![
        (
            PopupState::DeviceList { list: ListState::first_selected() },
            "Devices",
            5,
            vec![
                ListLine { text: "Laptop (integrated) | d1".to_string(), marked: false },
                ListLine { text: "Phone | d2".to_string(), marked: true },
            ],
        ),
        (
            PopupState::UserFollowedArtistList { list: ListState::first_selected() },
            "User Followed Artists",
            7,
            unmarked(&["Artist A"]),
        ),
        (
            PopupState::UserSavedAlbumList { list: ListState { selected: Some(1), offset: 0 } },
            "User Saved Albums",
            7,
            unmarked(&["Album B", "Album C"]),
        ),
        (
            PopupState::ThemeList {
                themes: vec![Theme { name: "dark".to_string() }, Theme { name: "light".to_string() }],
                list: ListState::first_selected(),
            },
            "Themes",
            7,
            unmarked(&["dark", "light"]),
        ),
        (
            PopupState::ArtistList { artists: vec!["A".to_string()], list: ListState::first_selected() },
            "Artists",
            5,
            unmarked(&["A"]),
        ),
    ];
    for (popup, expected_title, height, expected_lines) in cases {
        let expected_selected = popup.list_selected();
        let mut ui = ui_with(Some(popup));
        let plan = plan_popup(&mut ui, &sample_data(), SCREEN);
        assert!(!plan.focus_main);
        assert_eq!(plan.main_area, Rect { x: 0, y: 0, width: 80, height: 24 - height });
        match plan.drawing {
            PopupDrawing::List { area, title, lines, selected } => {
                assert_eq!(area, Rect { x: 0, y: 24 - height, width: 80, height });
                assert_eq!(title, expected_title);
                assert_eq!(lines, expected_lines);
                assert_eq!(selected, expected_selected);
            }
            other => panic!("unexpected drawing {other:?}"),
        }
    }
}

#[test]
fn devices_are_unmarked_when_nothing_plays() {
    let mut data = sample_data();
    data.playback_device_id = None;
    let mut ui = ui_with(Some(PopupState::DeviceList { list: ListState::first_selected() }));
    match plan_popup(&mut ui, &data, SCREEN).drawing {
        PopupDrawing::List { lines, .. } => assert!(lines.iter().all(|l| !l.marked)),
        other => panic!("unexpected drawing {other:?}"),
    }
}

#[test]
fn playlist_picker_has_a_search_box_on_top() {
    let mut ui = ui_with(Some(PopupState::UserPlaylistList {
        action: PlaylistPopupAction::Browse { folder_id: 0, search_query: "chill".to_string() },
        list: ListState::first_selected(),
    }));
    let plan = plan_popup(&mut ui, &sample_data(), SCREEN);
    assert!(!plan.focus_main);
    match plan.drawing {
        PopupDrawing::PlaylistPicker { search_area, search_title, search_text, list_area, title, lines, selected } => {
            assert_eq!(search_area, Rect { x: 0, y: 0, width: 80, height: 3 });
            assert_eq!(search_title, "Search Playlists (type to search, backspace on empty to close)");
            assert_eq!(search_text, "\u{1F50D} chill");
            assert_eq!(list_area, Rect { x: 0, y: 14, width: 80, height: 10 });
            assert_eq!(title, "User Playlists");
            // browsing shows the folder's playlists that the query keeps
            assert_eq!(lines, unmarked(&["Chill Mix", "chill beats"]));
            assert_eq!(selected, Some(0));
        }
        other => panic!("unexpected drawing {other:?}"),
    }
    assert_eq!(plan.main_area, Rect { x: 0, y: 14, width: 80, height: 0 });
}

#[test]
fn adding_a_track_chooses_among_modifiable_playlists() {
    let mut ui = ui_with(Some(PopupState::UserPlaylistList {
        action: PlaylistPopupAction::AddTrack { folder_id: 0, track_id: "t".to_string(), search_query: String::new() },
        list: ListState::first_selected(),
    }));
    match plan_popup(&mut ui, &sample_data(), SCREEN).drawing {
        PopupDrawing::PlaylistPicker { lines, search_text, .. } => {
            assert_eq!(lines, unmarked(&["My Chill", "Mine"]));
            assert_eq!(search_text, "\u{1F50D} ");
        }
        other => panic!("unexpected drawing {other:?}"),
    }
}

#[test]
fn plan_follows_the_areas_the_solver_gives() {
    // any answer of the solver: the plan only picks its parts
    let first = [Rect { x: 1, y: 2, width: 3, height: 4 }, Rect { x: 5, y: 6, width: 7, height: 8 }];
    let mut ui = ui_with(Some(PopupState::ConfirmAction { message: "ok?".to_string() }));
    let plan = plan_popup_in(&mut ui, &no_data(), SCREEN, &first, &[]);
    assert_eq!(plan.main_area, first[0]);
    match plan.drawing {
        PopupDrawing::TextBox { area, .. } => assert_eq!(area, first[1]),
        other => panic!("unexpected drawing {other:?}"),
    }
    let second = [Rect { x: 9, y: 9, width: 1, height: 1 }, Rect { x: 8, y: 8, width: 2, height: 2 }];
    let mut ui = ui_with(Some(PopupState::PlaylistCreate {
        name: "n".to_string(),
        desc: "d".to_string(),
        current_field: PlaylistCreateCurrentField::Name,
    }));
    let plan = plan_popup_in(&mut ui, &no_data(), SCREEN, &first, &second);
    assert_eq!(plan.main_area, first[0]);
    match plan.drawing {
        PopupDrawing::PlaylistCreate { name_area, desc_area, name_focused, .. } => {
            assert_eq!(name_area, second[0]);
            assert_eq!(desc_area, second[1]);
            assert!(name_focused);
        }
        other => panic!("unexpected drawing {other:?}"),
    }
}

#[test]
fn anchored_popup_is_clamped_inside_the_area() {
    let area = Rect { x: 5, y: 2, width: 40, height: 10 };
    let items = vec!["short".to_string()];
    // a click near the bottom-right corner moves the popup up and left
    let r = anchored_list_popup_area(area, 44, 11, "Title", &items, 4);
    assert_eq!(r, Rect { x: 25, y: 8, width: 20, height: 4 });
    // a click left of the area is moved into it
    let r = anchored_list_popup_area(area, 0, 0, "Title", &items, 4);
    assert_eq!(r, Rect { x: 5, y: 2, width: 20, height: 4 });
    // a long line widens the popup, up to the area's width
    let long = vec!["x".repeat(100)];
    let r = anchored_list_popup_area(area, 6, 3, "Title", &long, 30);
    assert_eq!(r, Rect { x: 5, y: 2, width: 40, height: 10 });
}

#[test]
fn anchored_popup_in_a_small_area_is_never_cut_off() {
    let area = Rect { x: 2, y: 1, width: 10, height: 5 };
    let r = anchored_list_popup_area(area, 8, 4, "T", &[], 7);
    assert_eq!(r, Rect { x: 2, y: 1, width: 10, height: 5 });
    let empty = Rect { x: 0, y: 0, width: 10, height: 0 };
    let r = anchored_list_popup_area(empty, 3, 3, "T", &[], 5);
    assert_eq!(r, Rect { x: 0, y: 0, width: 10, height: 0 });
}

#[test]
fn anchored_popup_follows_the_click() {
    let area = Rect { x: 0, y: 0, width: 80, height: 24 };
    let a = anchored_list_popup_area(area, 10, 5, "Title", &[], 4);
    let b = anchored_list_popup_area(area, 30, 9, "Title", &[], 4);
    assert!(a.x <= b.x && a.y <= b.y);
    assert_eq!((a.width, a.height), (b.width, b.height));
}

#[test]
fn shortcut_help_lists_what_the_typed_keys_lead_to() {
    let input = KeySequence { keys: vec!["g".to_string()] };
    let matched = vec![
        keymap(&["g", "a"], "BrowseUserPlaylists"),
        keymap(&["g"], "Refresh"),
        keymap(&["g", "b"], "None"),
        keymap(&["g", "c", "d"], "SwitchTheme"),
    ];
    let entries = shortcut_help_entries(&input, &matched);
    let listed: Vec<(Vec<String>, String)> =
        entries.iter().map(|k| (k.key_sequence.keys.clone(), k.command.clone())).collect();
    assert_eq!(
        listed,
        vec![
            (vec!["a".to_string()], "BrowseUserPlaylists".to_string()),
            (vec!["c".to_string(), "d".to_string()], "SwitchTheme".to_string()),
        ]
    );
    // nothing typed: nothing listed
    assert!(shortcut_help_entries(&KeySequence::empty(), &matched).is_empty());
}

#[test]
fn shortcut_help_rows_hold_three_bindings() {
    assert_eq!(table_rows(vec![1, 2, 3, 4, 5, 6, 7]), vec![vec![1, 2, 3], vec![4, 5, 6], vec![7]]);
    assert_eq!(table_rows(vec![1, 2, 3]), vec![vec![1, 2, 3]]);
    assert!(table_rows(Vec::<u8>::new()).is_empty());
}

#[test]
fn shortcut_help_plan_docks_a_table_of_seven_rows() {
    let mut ui = ui_with(None);
    ui.input_key_sequence = KeySequence { keys: vec!["g".to_string()] };
    let mut matched: Vec<Keymap> = (0..3).map(|i| keymap(&["g", &i.to_string()], "Cmd")).collect();
    matched.push(keymap(&["g", "x", "y"], "NextTrack"));
    let plan = plan_shortcut_help_popup(&ui, &matched, SCREEN);
    assert_eq!(plan.main_area, Rect { x: 0, y: 0, width: 80, height: 17 });
    assert_eq!(plan.table_area, Some(Rect { x: 0, y: 17, width: 80, height: 7 }));
    assert_eq!(plan.title, "Shortcuts");
    assert_eq!(plan.column_widths, vec![(1, 3), (1, 3), (1, 3)]);
    assert_eq!(
        plan.cells,
        vec![
            vec!["0: Cmd".to_string(), "1: Cmd".to_string(), "2: Cmd".to_string()],
            vec!["x y: NextTrack".to_string()],
        ]
    );

    let nothing = plan_shortcut_help_popup(&ui, &vec![keymap(&["g"], "Cmd")], SCREEN);
    assert_eq!(nothing.main_area, SCREEN);
    assert!(nothing.table_area.is_none());
    assert!(nothing.cells.is_empty());
}

#[test]
fn shortcut_help_follows_the_areas_the_solver_gives() {
    let mut ui = ui_with(None);
    ui.input_key_sequence = KeySequence { keys: vec!["g".to_string()] };
    let chunks = [Rect { x: 0, y: 0, width: 9, height: 9 }, Rect { x: 0, y: 9, width: 9, height: 2 }];
    let plan = plan_shortcut_help_popup_in(&ui, &vec![keymap(&["g", "q"], "Quit")], SCREEN, &chunks);
    assert_eq!(plan.main_area, chunks[0]);
    assert_eq!(plan.table_area, Some(chunks[1]));
    assert_eq!(plan.cells, vec![vec!["q: Quit".to_string()]]);
    let nothing = plan_shortcut_help_popup_in(&ui, &vec![], SCREEN, &chunks);
    assert_eq!(nothing.main_area, SCREEN);
    assert!(nothing.table_area.is_none());
}
