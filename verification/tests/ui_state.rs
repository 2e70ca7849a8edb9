use spotify_player::config::{KeySequence, Keymap, Theme};
use spotify_player::geometry::Rect;
use spotify_player::page::{PageState, PageType};
use spotify_player::popup_state::{ListState, PopupState};
use spotify_player::ui_state::{Orientation, UIState};

fn theme() -> Theme {
    Theme { name: "default".to_string() }
}

fn fresh_ui() -> UIState {
    UIState::new(theme(), Orientation::Horizontal)
}

fn page(t: PageType, id: &str) -> PageState {
    PageState::new(t, id.to_string())
}

fn types(ui: &UIState) -> Vec<PageType> {
    ui.history.iter().map(|p| p.page_type).collect()
}

#[test]
fn new_state_starts_on_the_library_page() {
    let ui = fresh_ui();
    assert!(ui.is_running);
    assert_eq!(ui.history.len(), 1);
    assert_eq!(ui.current_page().page_type(), PageType::Library);
    assert_eq!(ui.current_page().selected, 0);
    assert!(ui.popup.is_none());
    assert!(ui.mouse_popup_anchor.is_none());
    assert!(ui.count_prefix.is_none());
    assert!(ui.active_list_rect.is_none());
    assert_eq!(ui.playback_progress_bar_rect, Rect { x: 0, y: 0, width: 0, height: 0 });
    assert_eq!(ui.content_area_rect, Rect::zero());
    assert!(ui.input_key_sequence.keys.is_empty());
    assert_eq!(ui.orientation, Orientation::Horizontal);
    assert_eq!(ui.theme.name, "default");
}

#[test]
fn new_page_pushes_a_different_page_and_closes_the_popup() {
    let mut ui = fresh_ui();
    ui.popup = Some(PopupState::DeviceList { list: ListState::first_selected() });
    ui.new_page(page(PageType::Context, "album:1"));
    assert!(ui.popup.is_none());
    assert_eq!(types(&ui), vec![PageType::Library, PageType::Context]);
    assert_eq!(ui.current_page().context_id, "album:1");
}

#[test]
fn new_page_does_not_repeat_the_current_page() {
    let mut ui = fresh_ui();
    ui.new_page(page(PageType::Context, "album:1"));
    ui.new_page(page(PageType::Context, "album:1"));
    assert_eq!(ui.history.len(), 2);
    // same kind but another context: pushed
    ui.new_page(page(PageType::Context, "album:2"));
    assert_eq!(ui.history.len(), 3);
    // same content but another cursor position: another page
    let mut moved = page(PageType::Context, "album:2");
    moved.select(4);
    ui.new_page(moved);
    assert_eq!(ui.history.len(), 4);
}

#[test]
fn switch_to_page_reuses_and_moves_the_existing_page() {
    let mut ui = fresh_ui();
    ui.history[0].select(7);
    ui.new_page(page(PageType::Search, ""));
    ui.new_page(page(PageType::Context, "playlist:9"));
    ui.popup = Some(PopupState::ConfirmAction { message: "sure?".to_string() });
    let fresh = ui.switch_to_page(PageType::Library, || page(PageType::Library, ""));
    assert!(!fresh);
    assert!(ui.popup.is_none());
    assert_eq!(types(&ui), vec![PageType::Search, PageType::Context, PageType::Library]);
    // the reused page keeps its cursor
    assert_eq!(ui.current_page().selected, 7);
}

#[test]
fn switch_to_page_pushes_a_fresh_page_when_none_exists() {
    let mut ui = fresh_ui();
    let fresh = ui.switch_to_page(PageType::Queue, || page(PageType::Queue, ""));
    assert!(fresh);
    assert_eq!(types(&ui), vec![PageType::Library, PageType::Queue]);
}

#[test]
fn switch_to_the_current_page_changes_nothing() {
    let mut ui = fresh_ui();
    ui.new_page(page(PageType::Browse, ""));
    let fresh = ui.switch_to_page(PageType::Browse, || page(PageType::Browse, ""));
    assert!(!fresh);
    assert_eq!(types(&ui), vec![PageType::Library, PageType::Browse]);
}

#[test]
fn switching_back_and_forth_keeps_the_history_bounded() {
    let mut ui = fresh_ui();
    for _ in 0..10 {
        ui.switch_to_page(PageType::Queue, || page(PageType::Queue, ""));
        ui.switch_to_page(PageType::Logs, || page(PageType::Logs, ""));
        ui.switch_to_page(PageType::Library, || page(PageType::Library, ""));
    }
    assert_eq!(types(&ui), vec![PageType::Queue, PageType::Logs, PageType::Library]);
    // switching twice to one kind: the second switch changes nothing
    ui.switch_to_page(PageType::Queue, || page(PageType::Queue, ""));
    let before = types(&ui);
    let fresh = ui.switch_to_page(PageType::Queue, || page(PageType::Queue, ""));
    assert!(!fresh);
    assert_eq!(types(&ui), before);
}

#[test]
fn switch_moves_the_first_page_of_the_kind() {
    let mut ui = fresh_ui();
    ui.new_page(page(PageType::Context, "a"));
    ui.new_page(page(PageType::Search, ""));
    ui.new_page(page(PageType::Context, "b"));
    ui.new_page(page(PageType::Queue, ""));
    ui.switch_to_page(PageType::Context, || page(PageType::Context, "c"));
    let ids: Vec<String> = ui.history.iter().map(|p| p.context_id.clone()).collect();
    assert_eq!(ids, vec!["", "", "b", "", "a"]);
}

#[test]
fn has_focused_popup_is_false_only_without_popup_or_with_search() {
    let mut ui = fresh_ui();
    assert!(!ui.has_focused_popup());
    ui.popup = Some(PopupState::Search { query: "x".to_string() });
    assert!(!ui.has_focused_popup());
    ui.popup = Some(PopupState::ConfirmAction { message: "m".to_string() });
    assert!(ui.has_focused_popup());
    ui.popup = Some(PopupState::ThemeList { themes: vec![theme()], list: ListState::first_selected() });
    assert!(ui.has_focused_popup());
}

#[test]
fn new_search_popup_opens_an_empty_search_and_resets_the_cursor() {
    let mut ui = fresh_ui();
    ui.new_page(page(PageType::Context, "artist:3"));
    ui.history[1].select(12);
    ui.new_search_popup();
    assert_eq!(ui.history.len(), 2);
    assert_eq!(ui.current_page().selected, 0);
    assert_eq!(ui.current_page().context_id, "artist:3");
    match &ui.popup {
        Some(PopupState::Search { query }) => assert!(query.is_empty()),
        other => panic!("unexpected popup {other:?}"),
    }
    assert!(!ui.has_focused_popup());
    // an empty query shows every item
    let items = vec![1, 2, 3];
    let labels = vec!["one".to_string(), "two".to_string(), "three".to_string()];
    let shown: Vec<i32> = ui.search_filtered_items(&items, &labels).into_iter().copied().collect();
    assert_eq!(shown, vec![1, 2, 3]);
}

#[test]
fn search_filtered_items_filters_only_under_the_search_box() {
    let mut ui = fresh_ui();
    let items = vec!["a", "b", "c"];
    let labels: Vec<String> = vec!["Rock Anthems".to_string(), "Jazz Nights".to_string(), "Soft Rock".to_string()];
    let all: Vec<&str> = ui.search_filtered_items(&items, &labels).into_iter().copied().collect();
    assert_eq!(all, vec!["a", "b", "c"]);
    ui.popup = Some(PopupState::Search { query: "rock".to_string() });
    let kept: Vec<&str> = ui.search_filtered_items(&items, &labels).into_iter().copied().collect();
    assert_eq!(kept, vec!["a", "c"]);
    ui.popup = Some(PopupState::DeviceList { list: ListState::first_selected() });
    let all: Vec<&str> = ui.search_filtered_items(&items, &labels).into_iter().copied().collect();
    assert_eq!(all, vec!["a", "b", "c"]);
}

#[test]
fn current_page_mut_changes_the_top_page_only() {
    let mut ui = fresh_ui();
    ui.new_page(page(PageType::Queue, ""));
    ui.current_page_mut().select(3);
    assert_eq!(ui.history[0].selected, 0);
    assert_eq!(ui.history[1].selected, 3);
}

#[test]
fn key_sequence_and_keymap_hold_their_keys() {
    let ks = KeySequence::empty();
    assert!(ks.keys.is_empty());
    let km = Keymap { key_sequence: KeySequence { keys: vec!["g".to_string()] }, command: "None".to_string() };
    assert_eq!(km.key_sequence.keys.len(), 1);
}
