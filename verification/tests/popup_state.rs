use spotify_player::config::Theme;
use spotify_player::geometry::Rect;
use spotify_player::page::{PageState, PageType};
use spotify_player::popup::can_plan_popup;
use spotify_player::popup_state::{ListState, PlaylistPopupAction, PopupState};
use spotify_player::ui_state::{Orientation, UIState};

#[test]
fn list_popups_keep_their_list_state() {
    let mut popup = PopupState::ArtistList { artists: vec!["A".to_string(), "B".to_string()], list: ListState::first_selected() };
    assert_eq!(popup.list_selected(), Some(0));
    popup.set_list_state(ListState { selected: Some(1), offset: 1 });
    assert_eq!(popup.list_state(), Some(ListState { selected: Some(1), offset: 1 }));
    assert_eq!(popup.list_selected(), Some(1));
}

#[test]
fn popups_without_a_list_ignore_list_states() {
    let mut popup = PopupState::Search { query: "q".to_string() };
    assert_eq!(popup.list_state(), None);
    assert_eq!(popup.list_selected(), None);
    popup.set_list_state(ListState { selected: Some(3), offset: 0 });
    assert_eq!(popup.list_state(), None);
    match popup {
        PopupState::Search { query } => assert_eq!(query, "q"),
        other => panic!("unexpected popup {other:?}"),
    }
}

#[test]
fn playlist_actions_expose_their_search_query() {
    let browse = PlaylistPopupAction::Browse { folder_id: 1, search_query: "a".to_string() };
    let add = PlaylistPopupAction::AddTrack { folder_id: 2, track_id: "t".to_string(), search_query: "b".to_string() };
    let ep = PlaylistPopupAction::AddEpisode { folder_id: 3, episode_id: "e".to_string(), search_query: "c".to_string() };
    assert_eq!(browse.search_query(), "a");
    assert_eq!(add.search_query(), "b");
    assert_eq!(ep.search_query(), "c");
}

#[test]
fn library_page_starts_at_the_top() {
    let p = PageState::library();
    assert_eq!(p.page_type(), PageType::Library);
    assert!(p.context_id.is_empty());
    assert_eq!(p.selected, 0);
    assert!(p == PageState::new(PageType::Library, String::new()));
    assert!(p != PageState::new(PageType::Queue, String::new()));
}

#[test]
fn huge_action_lists_cannot_be_laid_out() {
    let mut ui = UIState::new(Theme { name: "t".to_string() }, Orientation::Vertical);
    let area = Rect { x: 0, y: 0, width: 80, height: 24 };
    assert!(can_plan_popup(&ui, area));
    ui.popup = Some(PopupState::ActionList {
        item_name: "x".to_string(),
        actions: vec![String::new(); 65534],
        list: ListState::first_selected(),
    });
    assert!(!can_plan_popup(&ui, area));
    ui.popup = Some(PopupState::ActionList {
        item_name: "x".to_string(),
        actions: vec![String::new(); 3],
        list: ListState::first_selected(),
    });
    assert!(can_plan_popup(&ui, area));
    // anchored near the end of the coordinate space, the placement overflows
    ui.mouse_popup_anchor = Some((1, 1));
    let far = Rect { x: 65530, y: 0, width: 40, height: 24 };
    assert!(!can_plan_popup(&ui, far));
}
