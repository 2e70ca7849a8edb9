use vstd::prelude::*;
use vstd::string::*;
use crate::config::Theme;
use crate::geometry::{Constraint, Direction, Rect, lemma_split_outcome, split_area, split_outcome};
use crate::popup_state::{ListState, PlaylistCreateCurrentField, PlaylistPopupAction, PopupState};
use crate::search::{filtered_items_from_query, label_views, matching_indices};
use crate::text::{decimal, decimal_string, line_views, unmarked, unmarked_lines, ListLine};
use crate::ui_state::UIState;

verus! {

/// The larger of two integers.
pub open spec fn max_of(a: int, b: int) -> int {
    if a >= b { a } else { b }
}

/// The smaller of two integers.
pub open spec fn min_of(a: int, b: int) -> int {
    if a <= b { a } else { b }
}

/// The number of characters of the longest of `title` and `items`.
pub open spec fn widest(title: Seq<char>, items: Seq<Seq<char>>) -> nat
    decreases items.len(),
{
    if items.len() == 0 {
        title.len()
    } else {
        let w = widest(title, items.drop_last());
        if items.last().len() > w { items.last().len() } else { w }
    }
}

/// Width of a popup anchored at a click: room for its widest line plus
/// borders and padding, at least 20 cells, and never wider than the area.
pub open spec fn anchored_width(area: Rect, widest: nat) -> int {
    min_of(max_of((widest as u16) + 4, 20), area.width as int)
}

/// Height of a popup anchored at a click: the asked height, never taller than the area.
pub open spec fn anchored_height(area: Rect, height: u16) -> int {
    min_of(height as int, area.height as int)
}

/// The arithmetic of placing a popup at a click stays within `u16`.
pub open spec fn anchored_fits(area: Rect, widest: nat, height: u16) -> bool {
    &&& (widest as u16) + 4 <= u16::MAX
    &&& area.x + (area.width - anchored_width(area, widest)) <= u16::MAX
    &&& area.y + (area.height - anchored_height(area, height)) <= u16::MAX
}

/// A popup placed with its top-left corner at the click, moved left and up as
/// far as needed to stay inside `area`, but never left of or above it.
pub open spec fn anchored_rect(area: Rect, click_x: u16, click_y: u16, widest: nat, height: u16) -> Rect {
    let w = anchored_width(area, widest);
    let h = anchored_height(area, height);
    Rect {
        x: max_of(min_of(click_x as int, area.x + (area.width - w)), area.x as int) as u16,
        y: max_of(min_of(click_y as int, area.y + (area.height - h)), area.y as int) as u16,
        width: w as u16,
        height: h as u16,
    }
}

/// The character count of the longest of `title` and `items`.
fn widest_label(title: &str, items: &[String]) -> (w: usize)
    ensures
        w == widest(title@, label_views(items@)),
{
    let ghost views = label_views(items@);
    let mut w = title.unicode_len();
    let mut i: usize = 0;
    while i < items.len()
        invariant
            views == label_views(items@),
            i <= items@.len(),
            w == widest(title@, views.take(i as int)),
        decreases items@.len() - i,
    {
        let n = items[i].as_str().unicode_len();
        proof {
            assert(views.take(i + 1).drop_last() =~= views.take(i as int));
        }
        if n > w {
            w = n;
        }
        i = i + 1;
    }
    proof {
        assert(views.take(items@.len() as int) =~= views);
    }
    w
}

/// Where a list popup opened by a right-click at (`click_x`, `click_y`) is
/// drawn: wide enough for its title and longest item (at least 20 cells when
/// the area allows), anchored at the click and clamped so that it stays fully
/// inside `area` and is never cut off.
pub fn anchored_list_popup_area(area: Rect, click_x: u16, click_y: u16, title: &str, items: &[String], height: u16) -> (r: Rect)
    requires
        anchored_fits(area, widest(title@, label_views(items@)), height),
    ensures
        r == anchored_rect(area, click_x, click_y, widest(title@, label_views(items@)), height),
        area.contains_rect(r),
        r.height <= height,
        area.width >= 20 ==> r.width >= 20,
        ({
            &&& title@.len() + 4 <= u16::MAX
            &&& forall|i: int| 0 <= i < items@.len() ==> #[trigger] items@[i]@.len() + 4 <= u16::MAX
        }) ==> {
            &&& r.width >= min_of(title@.len() + 4 as int, area.width as int)
            &&& forall|i: int| 0 <= i < items@.len() ==> r.width >= min_of(#[trigger] items@[i]@.len() + 4 as int, area.width as int)
        },
{
    proof {
        let views = label_views(items@);
        if title@.len() + 4 <= u16::MAX && forall|i: int| 0 <= i < items@.len() ==> #[trigger] items@[i]@.len() + 4 <= u16::MAX {
            assert forall|i: int| 0 <= i < views.len() implies #[trigger] views[i].len() + 4 <= u16::MAX by {
                assert(views[i] == items@[i]@);
            }
            crate::laws::lemma_anchored_popup_fits_labels(
                area, click_x, click_y, title@, views, height,
                anchored_rect(area, click_x, click_y, widest(title@, views), height),
            );
            assert forall|i: int| 0 <= i < items@.len() implies anchored_rect(area, click_x, click_y, widest(title@, views), height).width >= min_of(#[trigger] items@[i]@.len() + 4 as int, area.width as int) by {
                assert(views[i] == items@[i]@);
            }
        }
    }
    let content_width = (widest_label(title, items) as u16) + 4;
    let width = content_width.max(20).min(area.width);
    let height = height.min(area.height);
    let x = click_x.min(area.x + (area.width - width)).max(area.x);
    let y = click_y.min(area.y + (area.height - height)).max(area.y);
    Rect { x, y, width, height }
}

/// The line of an action list for the action numbered `id`: `[id] desc`.
pub open spec fn action_line(id: nat, desc: Seq<char>) -> Seq<char> {
    seq!['['] + decimal(id) + seq![']', ' '] + desc
}

/// The lines of an action list, one per action description.
pub open spec fn action_lines(actions: Seq<Seq<char>>) -> Seq<Seq<char>> {
    Seq::new(actions.len(), |i: int| action_line(i as nat, actions[i]))
}

/// The theme names, in order.
pub open spec fn theme_names(themes: Seq<Theme>) -> Seq<Seq<char>> {
    themes.map_values(|t: Theme| t.name@)
}

fn action_line_strings(actions: &Vec<String>) -> (lines: Vec<String>)
    ensures
        label_views(lines@) == action_lines(label_views(actions@)),
{
    let mut lines: Vec<String> = Vec::new();
    let mut i: usize = 0;
    while i < actions.len()
        invariant
            i <= actions@.len(),
            lines@.len() == i,
            forall|k: int| 0 <= k < i ==> #[trigger] lines@[k]@ == action_line(k as nat, actions@[k]@),
        decreases actions@.len() - i,
    {
        let mut line = String::from_str("[");
        let digits = decimal_string(i);
        line.append(digits.as_str());
        line.append("] ");
        line.append(actions[i].as_str());
        proof {
            reveal_strlit("[");
            reveal_strlit("] ");
            assert(line@ =~= action_line(i as nat, actions@[i as int]@));
        }
        lines.push(line);
        i = i + 1;
    }
    assert(label_views(lines@) =~= action_lines(label_views(actions@)));
    lines
}

fn theme_name_strings(themes: &Vec<Theme>) -> (names: Vec<String>)
    ensures
        label_views(names@) == theme_names(themes@),
{
    let mut names: Vec<String> = Vec::new();
    let mut i: usize = 0;
    while i < themes.len()
        invariant
            i <= themes@.len(),
            names@.len() == i,
            forall|k: int| 0 <= k < i ==> #[trigger] names@[k]@ == themes@[k].name@,
        decreases themes@.len() - i,
    {
        names.push(themes[i].name.clone());
        i = i + 1;
    }
    assert(label_views(names@) =~= theme_names(themes@));
    names
}

/// A playback device, as the device list shows it.
#[derive(Clone, Debug)]
pub struct Device {
    pub id: String,
    pub name: String,
    /// the device this running instance plays on itself
    pub is_integrated: bool,
}

/// The line of a device: its name, marked `(integrated)` for this instance's
/// own device, then ` | ` and its id.
pub open spec fn device_line(d: Device) -> Seq<char> {
    (if d.is_integrated { d.name@ + " (integrated)"@ } else { d.name@ }) + " | "@ + d.id@
}

/// The id of the device that is playing: empty when nothing plays or the
/// device has no id.
pub open spec fn current_device_id(playback_device_id: Option<Option<String>>) -> Seq<char> {
    match playback_device_id {
        Some(Some(id)) => id@,
        _ => Seq::<char>::empty(),
    }
}

/// The device list: one line per device, in order, marked when it is the
/// device that is playing.
pub open spec fn device_lines(devices: Seq<Device>, current: Seq<char>) -> Seq<(Seq<char>, bool)> {
    devices.map_values(|d: Device| (device_line(d), d.id@ == current))
}

/// What the popups that list the application's data show: the devices and
/// the device playing (`None` when nothing plays, else the playing device's
/// id if it has one), the playlists of the folder the playlist popup shows
/// (all of them, and those the user can add to), and the followed artists and
/// saved albums as displayed.
#[derive(Clone, Debug)]
pub struct PopupData {
    pub devices: Vec<Device>,
    pub playback_device_id: Option<Option<String>>,
    pub folder_playlists: Vec<String>,
    pub modifiable_playlists: Vec<String>,
    pub followed_artists: Vec<String>,
    pub saved_albums: Vec<String>,
}

fn device_list_lines(data: &PopupData) -> (lines: Vec<ListLine>)
    ensures
        line_views(lines@) == device_lines(data.devices@, current_device_id(data.playback_device_id)),
{
    let current = match &data.playback_device_id {
        Some(Some(id)) => id.clone(),
        _ => String::new(),
    };
    let mut lines: Vec<ListLine> = Vec::new();
    let mut i: usize = 0;
    while i < data.devices.len()
        invariant
            current@ == current_device_id(data.playback_device_id),
            i <= data.devices@.len(),
            lines@.len() == i,
            line_views(lines@) == device_lines(data.devices@.take(i as int), current@),
        decreases data.devices@.len() - i,
    {
        let d = &data.devices[i];
        let mut text = d.name.clone();
        if d.is_integrated {
            text.append(" (integrated)");
        }
        text.append(" | ");
        text.append(d.id.as_str());
        let marked = d.id == current;
        proof {
            reveal_strlit(" (integrated)");
            reveal_strlit(" | ");
            assert(text@ =~= device_line(data.devices@[i as int]));
        }
        let ghost before = lines@;
        lines.push(ListLine { text, marked });
        proof {
            assert(line_views(lines@) =~= line_views(before).push((text@, marked)));
            assert(device_lines(data.devices@.take(i + 1), current@) =~= device_lines(data.devices@.take(i as int), current@).push((device_line(data.devices@[i as int]), data.devices@[i as int].id@ == current@)));
        }
        i = i + 1;
    }
    assert(data.devices@.take(data.devices@.len() as int) =~= data.devices@);
    lines
}

/// The playlists the playlist popup chooses from: those of the folder when
/// browsing, those the user can add to when adding a track or an episode.
pub open spec fn playlist_choices(action: PlaylistPopupAction, data: PopupData) -> Seq<Seq<char>> {
    match action {
        PlaylistPopupAction::Browse { .. } => label_views(data.folder_playlists@),
        _ => label_views(data.modifiable_playlists@),
    }
}

/// The lines of the playlist popup: the choices that its search query keeps, in order.
pub open spec fn playlist_lines(action: PlaylistPopupAction, data: PopupData) -> Seq<(Seq<char>, bool)> {
    let choices = playlist_choices(action, data);
    let kept = matching_indices(action.spec_search_query(), choices);
    unmarked(Seq::new(kept.len(), |k: int| choices[kept[k]]))
}

fn playlist_list_lines(action: &PlaylistPopupAction, data: &PopupData) -> (lines: Vec<ListLine>)
    ensures
        line_views(lines@) == playlist_lines(*action, *data),
{
    let choices = match action {
        PlaylistPopupAction::Browse { .. } => &data.folder_playlists,
        _ => &data.modifiable_playlists,
    };
    let kept = filtered_items_from_query(action.search_query().as_str(), choices.as_slice(), choices.as_slice());
    let ghost idx = matching_indices(action.spec_search_query(), label_views(choices@));
    let mut lines: Vec<ListLine> = Vec::new();
    let mut i: usize = 0;
    while i < kept.len()
        invariant
            idx == matching_indices(action.spec_search_query(), label_views(choices@)),
            kept@.len() == idx.len(),
            forall|k: int| 0 <= k < kept@.len() ==> *kept@[k] == choices@[#[trigger] idx[k]],
            i <= kept@.len(),
            lines@.len() == i,
            line_views(lines@) == unmarked(Seq::new(i as nat, |k: int| label_views(choices@)[idx[k]])),
        decreases kept@.len() - i,
    {
        let chosen: &String = kept[i];
        let text: String = chosen.clone();
        proof {
            assert(*kept@[i as int] == choices@[idx[i as int]]);
            assert(text@ == choices@[idx[i as int]]@);
            crate::search::lemma_matching_indices_in_range(action.spec_search_query(), label_views(choices@), i as int);
        }
        let ghost before = lines@;
        lines.push(ListLine { text, marked: false });
        proof {
            assert(line_views(lines@) =~= line_views(before).push((text@, false)));
            assert(unmarked(Seq::new((i + 1) as nat, |k: int| label_views(choices@)[idx[k]])) =~= unmarked(Seq::new(i as nat, |k: int| label_views(choices@)[idx[k]])).push((text@, false)));
        }
        i = i + 1;
    }
    proof {
        let all = label_views(choices@);
        assert(all == playlist_choices(*action, *data));
        assert(line_views(lines@) =~= playlist_lines(*action, *data));
    }
    lines
}

/// What a popup draws.
#[derive(Debug)]
pub enum PopupDrawing {
    /// no popup: nothing is drawn
    Nothing,
    /// the name and description boxes of the new-playlist popup
    PlaylistCreate {
        name_area: Rect,
        name_title: String,
        name_text: String,
        desc_area: Rect,
        desc_title: String,
        desc_text: String,
        name_focused: bool,
    },
    /// a bordered box with a title and one line of text
    TextBox { area: Rect, title: String, text: String },
    /// a bordered list with a title, its lines and the selected line
    List { area: Rect, title: String, lines: Vec<ListLine>, selected: Option<usize> },
    /// the user-playlist picker: a search box and, below it, the list
    PlaylistPicker {
        search_area: Rect,
        search_title: String,
        search_text: String,
        list_area: Rect,
        title: String,
        lines: Vec<ListLine>,
        selected: Option<usize>,
    },
}

/// Where a popup goes and what it leaves to the main layout: the area left
/// for the page underneath, and whether the page keeps the focus.
#[derive(Debug)]
pub struct PopupPlan {
    pub main_area: Rect,
    pub focus_main: bool,
    pub drawing: PopupDrawing,
}

/// The height of an action list: one row per action plus two for the borders.
pub open spec fn action_list_height(n_actions: nat) -> u16 {
    ((n_actions as u16) + 2) as u16
}

/// The rows that a list popup docked at the bottom takes.
pub open spec fn docked_list_length(popup: PopupState) -> u16 {
    match popup {
        PopupState::ActionList { actions, .. } => action_list_height(actions@.len()),
        PopupState::DeviceList { .. } | PopupState::ArtistList { .. } => 5,
        _ => 7,
    }
}

/// `first` and `second` are answers of the layout solver for the splits that
/// `popup` makes of `rect` (the second one splitting a part of the first).
pub open spec fn popup_splits(popup: Option<PopupState>, anchor: Option<(u16, u16)>, rect: Rect, first: Seq<Rect>, second: Seq<Rect>) -> bool {
    match popup {
        None => true,
        Some(PopupState::PlaylistCreate { .. }) => {
            &&& split_outcome(Direction::Vertical, seq![Constraint::Min(0), Constraint::Length(3)], rect, first)
            &&& split_outcome(Direction::Horizontal, seq![Constraint::Percentage(50), Constraint::Percentage(50)], first[1], second)
        },
        Some(PopupState::Search { .. }) | Some(PopupState::ConfirmAction { .. }) =>
            split_outcome(Direction::Vertical, seq![Constraint::Fill(0), Constraint::Length(3)], rect, first),
        Some(PopupState::ActionList { .. }) if anchor is Some => true,
        Some(PopupState::UserPlaylistList { .. }) => {
            &&& split_outcome(Direction::Vertical, seq![Constraint::Length(3), Constraint::Fill(0), Constraint::Length(10)], rect, first)
            &&& split_outcome(Direction::Vertical, seq![Constraint::Fill(0), Constraint::Length(10)], first[2], second)
        },
        Some(p) => split_outcome(Direction::Vertical, seq![Constraint::Fill(0), Constraint::Length(docked_list_length(p))], rect, first),
    }
}

/// `first` and `second` hold as many areas as the layout of `popup` reads.
pub open spec fn enough_areas(popup: Option<PopupState>, anchor: Option<(u16, u16)>, first: nat, second: nat) -> bool {
    match popup {
        None => true,
        Some(PopupState::PlaylistCreate { .. }) => first >= 2 && second >= 2,
        Some(PopupState::ActionList { .. }) if anchor is Some => true,
        Some(PopupState::UserPlaylistList { .. }) => first >= 3 && second >= 2,
        Some(_) => first >= 2,
    }
}

/// A list docked below the main area: the main layout keeps `first[0]`, the
/// list takes `first[1]`.
pub open spec fn docked_list(first: Seq<Rect>, title: Seq<char>, lines: Seq<(Seq<char>, bool)>, selected: Option<usize>, plan: PopupPlan) -> bool {
    &&& plan.main_area == first[0]
    &&& !plan.focus_main
    &&& plan.drawing matches PopupDrawing::List { area, title: t, lines: l, selected: s }
    &&& area == first[1]
    &&& t@ == title
    &&& line_views(l@) == lines
    &&& s == selected
}

/// A one-line box docked below the main area.
pub open spec fn docked_text_box(first: Seq<Rect>, title: Seq<char>, text: Seq<char>, plan: PopupPlan) -> bool {
    &&& plan.main_area == first[0]
    &&& plan.focus_main
    &&& plan.drawing matches PopupDrawing::TextBox { area, title: t, text: x }
    &&& area == first[1]
    &&& t@ == title
    &&& x@ == text
}

/// `plan` is how `popup` is laid out over `rect`, given the areas `first` and
/// `second` that the layout solver gave for its splits, the popup having been
/// opened by a right-click at `anchor` if any, and `data` holding what the
/// lists of the application's data show.
pub open spec fn plans_popup(popup: Option<PopupState>, anchor: Option<(u16, u16)>, rect: Rect, data: PopupData, first: Seq<Rect>, second: Seq<Rect>, plan: PopupPlan) -> bool {
    match popup {
        None => plan.main_area == rect && plan.focus_main && plan.drawing is Nothing,
        Some(PopupState::PlaylistCreate { name, desc, current_field }) => {
            &&& plan.main_area == first[0]
            &&& plan.focus_main
            &&& plan.drawing matches PopupDrawing::PlaylistCreate { name_area, name_title, name_text, desc_area, desc_title, desc_text, name_focused }
            &&& name_area == second[0]
            &&& name_title@ == "Enter Name for New Playlist:"@
            &&& name_text@ == name@
            &&& desc_area == second[1]
            &&& desc_title@ == "Enter Description for New Playlist:"@
            &&& desc_text@ == desc@
            &&& name_focused == (current_field == PlaylistCreateCurrentField::Name)
        },
        Some(PopupState::Search { query }) => docked_text_box(first, "Search"@, seq!['/'] + query@, plan),
        Some(PopupState::ConfirmAction { message }) => docked_text_box(first, "Confirm"@, message@ + " (y/n)"@, plan),
        Some(PopupState::ActionList { item_name, actions, list }) => {
            let title = "Actions on "@ + item_name@;
            let lines = action_lines(label_views(actions@));
            match anchor {
                Some((x, y)) => {
                    &&& plan.main_area == rect
                    &&& !plan.focus_main
                    &&& plan.drawing matches PopupDrawing::List { area, title: t, lines: l, selected: s }
                    &&& area == anchored_rect(rect, x, y, widest(title, lines), action_list_height(actions@.len()))
                    &&& t@ == title
                    &&& line_views(l@) == unmarked(lines)
                    &&& s == list.selected
                },
                None => docked_list(first, title, unmarked(lines), list.selected, plan),
            }
        },
        Some(PopupState::DeviceList { list }) =>
            docked_list(first, "Devices"@, device_lines(data.devices@, current_device_id(data.playback_device_id)), list.selected, plan),
        Some(PopupState::ThemeList { themes, list }) =>
            docked_list(first, "Themes"@, unmarked(theme_names(themes@)), list.selected, plan),
        Some(PopupState::UserPlaylistList { action, list }) => {
            &&& plan.main_area == second[0]
            &&& !plan.focus_main
            &&& plan.drawing matches PopupDrawing::PlaylistPicker { search_area, search_title, search_text, list_area, title, lines, selected }
            &&& search_area == first[0]
            &&& search_title@ == "Search Playlists (type to search, backspace on empty to close)"@
            &&& search_text@ == "\u{1F50D} "@ + action.spec_search_query()
            &&& list_area == second[1]
            &&& title@ == "User Playlists"@
            &&& line_views(lines@) == playlist_lines(action, data)
            &&& selected == list.selected
        },
        Some(PopupState::UserFollowedArtistList { list }) =>
            docked_list(first, "User Followed Artists"@, unmarked(label_views(data.followed_artists@)), list.selected, plan),
        Some(PopupState::UserSavedAlbumList { list }) =>
            docked_list(first, "User Saved Albums"@, unmarked(label_views(data.saved_albums@)), list.selected, plan),
        Some(PopupState::ArtistList { artists, list }) =>
            docked_list(first, "Artists"@, unmarked(label_views(artists@)), list.selected, plan),
    }
}

/// The popup's sizes stay within `u16`: an action list has fewer than
/// 65534 rows, and one opened by a right-click can be placed at the click.
pub open spec fn popup_fits(popup: Option<PopupState>, anchor: Option<(u16, u16)>, rect: Rect) -> bool {
    match popup {
        Some(PopupState::ActionList { item_name, actions, .. }) => {
            &&& (actions@.len() as u16) + 2 <= u16::MAX
            &&& anchor is Some ==> anchored_fits(
                rect,
                widest("Actions on "@ + item_name@, action_lines(label_views(actions@))),
                action_list_height(actions@.len()),
            )
        },
        _ => true,
    }
}

/// The list popups, which take the focus from the page underneath.
pub open spec fn is_list_popup(popup: Option<PopupState>) -> bool {
    match popup {
        Some(PopupState::ActionList { .. }) | Some(PopupState::DeviceList { .. }) | Some(PopupState::ThemeList { .. })
        | Some(PopupState::UserPlaylistList { .. }) | Some(PopupState::UserFollowedArtistList { .. })
        | Some(PopupState::UserSavedAlbumList { .. }) | Some(PopupState::ArtistList { .. }) => true,
        _ => false,
    }
}

fn docked_list_plan(first: &[Rect], title: String, lines: Vec<ListLine>, selected: Option<usize>) -> (plan: PopupPlan)
    requires
        first@.len() >= 2,
    ensures
        docked_list(first@, title@, line_views(lines@), selected, plan),
{
    PopupPlan { main_area: first[0], focus_main: false, drawing: PopupDrawing::List { area: first[1], title, lines, selected } }
}

fn docked_text_box_plan(first: &[Rect], title: String, text: String) -> (plan: PopupPlan)
    requires
        first@.len() >= 2,
    ensures
        docked_text_box(first@, title@, text@, plan),
{
    PopupPlan { main_area: first[0], focus_main: true, drawing: PopupDrawing::TextBox { area: first[1], title, text } }
}

fn selected_of(list: ListState) -> (s: Option<usize>)
    ensures
        s == list.selected,
{
    list.selected
}

/// Asks the layout solver for the splits that the popup of `ui` makes of `rect`.
fn popup_areas(ui: &UIState, rect: Rect) -> (areas: (Vec<Rect>, Vec<Rect>))
    requires
        popup_fits(ui.popup, ui.mouse_popup_anchor, rect),
    ensures
        popup_splits(ui.popup, ui.mouse_popup_anchor, rect, areas.0@, areas.1@),
        enough_areas(ui.popup, ui.mouse_popup_anchor, areas.0@.len(), areas.1@.len()),
{
    let none: Vec<Rect> = Vec::new();
    match &ui.popup {
        None => (Vec::new(), none),
        Some(PopupState::PlaylistCreate { .. }) => {
            let rows = split_area(Direction::Vertical, &[Constraint::Min(0), Constraint::Length(3)], rect);
            proof {
                lemma_split_outcome(Direction::Vertical, seq![Constraint::Min(0), Constraint::Length(3)], rect, rows@);
            }
            let halves = split_area(Direction::Horizontal, &[Constraint::Percentage(50), Constraint::Percentage(50)], rows[1]);
            proof {
                lemma_split_outcome(Direction::Horizontal, seq![Constraint::Percentage(50), Constraint::Percentage(50)], rows[1], halves@);
            }
            (rows, halves)
        },
        Some(PopupState::Search { .. }) | Some(PopupState::ConfirmAction { .. }) => {
            let rows = split_area(Direction::Vertical, &[Constraint::Fill(0), Constraint::Length(3)], rect);
            proof {
                lemma_split_outcome(Direction::Vertical, seq![Constraint::Fill(0), Constraint::Length(3)], rect, rows@);
            }
            (rows, none)
        },
        Some(PopupState::UserPlaylistList { .. }) => {
            let rows = split_area(
                Direction::Vertical,
                &[Constraint::Length(3), Constraint::Fill(0), Constraint::Length(10)],
                rect,
            );
            proof {
                lemma_split_outcome(Direction::Vertical, seq![Constraint::Length(3), Constraint::Fill(0), Constraint::Length(10)], rect, rows@);
            }
            let list = split_area(Direction::Vertical, &[Constraint::Fill(0), Constraint::Length(10)], rows[2]);
            proof {
                lemma_split_outcome(Direction::Vertical, seq![Constraint::Fill(0), Constraint::Length(10)], rows[2], list@);
            }
            (rows, list)
        },
        Some(PopupState::ActionList { actions, .. }) => {
            if ui.mouse_popup_anchor.is_some() {
                (Vec::new(), none)
            } else {
                let height = (actions.len() as u16) + 2;
                let rows = split_area(Direction::Vertical, &[Constraint::Fill(0), Constraint::Length(height)], rect);
                proof {
                    lemma_split_outcome(Direction::Vertical, seq![Constraint::Fill(0), Constraint::Length(height)], rect, rows@);
                }
                (rows, none)
            }
        },
        Some(PopupState::DeviceList { .. }) | Some(PopupState::ArtistList { .. }) => {
            let rows = split_area(Direction::Vertical, &[Constraint::Fill(0), Constraint::Length(5)], rect);
            proof {
                lemma_split_outcome(Direction::Vertical, seq![Constraint::Fill(0), Constraint::Length(5)], rect, rows@);
            }
            (rows, none)
        },
        Some(_) => {
            let rows = split_area(Direction::Vertical, &[Constraint::Fill(0), Constraint::Length(7)], rect);
            proof {
                lemma_split_outcome(Direction::Vertical, seq![Constraint::Fill(0), Constraint::Length(7)], rect, rows@);
            }
            (rows, none)
        },
    }
}

/// Lays out the popup of `ui`, if any, over `rect`: where it is drawn, what it
/// draws, the area left to the main layout and whether the focus stays there.
/// The layout solver decides how `rect` is split (see `plan_popup_in` for
/// what follows from its answer). When no popup is open, the position of the
/// right-click that opened the last one is forgotten, so that the next popup
/// does not reuse it.
pub fn plan_popup(ui: &mut UIState, data: &PopupData, rect: Rect) -> (plan: PopupPlan)
    requires
        popup_fits(old(ui).popup, old(ui).mouse_popup_anchor, rect),
    ensures
        exists|first: Seq<Rect>, second: Seq<Rect>| #[trigger] popup_splits(old(ui).popup, old(ui).mouse_popup_anchor, rect, first, second)
            && plans_popup(old(ui).popup, old(ui).mouse_popup_anchor, rect, *data, first, second, plan),
        plan.focus_main == !is_list_popup(old(ui).popup),
        old(ui).popup is None ==> final(ui).mouse_popup_anchor is None,
        old(ui).popup is Some ==> final(ui).mouse_popup_anchor == old(ui).mouse_popup_anchor,
        final(ui).popup == old(ui).popup,
        final(ui).history == old(ui).history,
        final(ui).same_settings_but_anchor(*old(ui)),
{
    let areas = popup_areas(ui, rect);
    let plan = plan_popup_in(ui, data, rect, areas.0.as_slice(), areas.1.as_slice());
    assert(popup_splits(old(ui).popup, old(ui).mouse_popup_anchor, rect, areas.0@, areas.1@));
    plan
}

/// Lays out the popup of `ui` over `rect` given the areas `first` and `second`
/// that the layout solver gave for its splits (see `popup_splits`): what
/// `plan_popup` does once the solver has answered.
pub fn plan_popup_in(ui: &mut UIState, data: &PopupData, rect: Rect, first: &[Rect], second: &[Rect]) -> (plan: PopupPlan)
    requires
        popup_fits(old(ui).popup, old(ui).mouse_popup_anchor, rect),
        enough_areas(old(ui).popup, old(ui).mouse_popup_anchor, first@.len(), second@.len()),
    ensures
        plans_popup(old(ui).popup, old(ui).mouse_popup_anchor, rect, *data, first@, second@, plan),
        plan.focus_main == !is_list_popup(old(ui).popup),
        old(ui).popup is None ==> final(ui).mouse_popup_anchor is None,
        old(ui).popup is Some ==> final(ui).mouse_popup_anchor == old(ui).mouse_popup_anchor,
        final(ui).popup == old(ui).popup,
        final(ui).history == old(ui).history,
        final(ui).same_settings_but_anchor(*old(ui)),
{
    match &ui.popup {
        None => {},
        Some(_) => {
            return plan_open_popup(ui, data, rect, first, second);
        },
    }
    ui.mouse_popup_anchor = None;
    PopupPlan { main_area: rect, focus_main: true, drawing: PopupDrawing::Nothing }
}

fn plan_open_popup(ui: &UIState, data: &PopupData, rect: Rect, first: &[Rect], second: &[Rect]) -> (plan: PopupPlan)
    requires
        ui.popup is Some,
        popup_fits(ui.popup, ui.mouse_popup_anchor, rect),
        enough_areas(ui.popup, ui.mouse_popup_anchor, first@.len(), second@.len()),
    ensures
        plans_popup(ui.popup, ui.mouse_popup_anchor, rect, *data, first@, second@, plan),
        plan.focus_main == !is_list_popup(ui.popup),
{
    match &ui.popup {
        None => PopupPlan { main_area: rect, focus_main: true, drawing: PopupDrawing::Nothing },
        Some(popup) => match popup {
            PopupState::PlaylistCreate { name, desc, current_field } => {
                let name_focused = match current_field {
                    PlaylistCreateCurrentField::Name => true,
                    PlaylistCreateCurrentField::Desc => false,
                };
                PopupPlan {
                    main_area: first[0],
                    focus_main: true,
                    drawing: PopupDrawing::PlaylistCreate {
                        name_area: second[0],
                        name_title: String::from_str("Enter Name for New Playlist:"),
                        name_text: name.clone(),
                        desc_area: second[1],
                        desc_title: String::from_str("Enter Description for New Playlist:"),
                        desc_text: desc.clone(),
                        name_focused,
                    },
                }
            },
            PopupState::Search { query } => {
                let mut text = String::from_str("/");
                text.append(query.as_str());
                proof {
                    reveal_strlit("/");
                    assert(text@ =~= seq!['/'] + query@);
                }
                docked_text_box_plan(first, String::from_str("Search"), text)
            },
            PopupState::ActionList { item_name, actions, list } => {
                let title = String::from_str("Actions on ").concat(item_name.as_str());
                let texts = action_line_strings(actions);
                let height = (actions.len() as u16) + 2;
                match ui.mouse_popup_anchor {
                    Some((x, y)) => {
                        let area = anchored_list_popup_area(rect, x, y, title.as_str(), texts.as_slice(), height);
                        let lines = unmarked_lines(&texts);
                        PopupPlan {
                            main_area: rect,
                            focus_main: false,
                            drawing: PopupDrawing::List { area, title, lines, selected: selected_of(*list) },
                        }
                    },
                    None => docked_list_plan(first, title, unmarked_lines(&texts), selected_of(*list)),
                }
            },
            PopupState::DeviceList { list } =>
                docked_list_plan(first, String::from_str("Devices"), device_list_lines(data), selected_of(*list)),
            PopupState::ThemeList { themes, list } => {
                let names = theme_name_strings(themes);
                docked_list_plan(first, String::from_str("Themes"), unmarked_lines(&names), selected_of(*list))
            },
            PopupState::UserPlaylistList { action, list } => {
                let search_text = String::from_str("\u{1F50D} ").concat(action.search_query().as_str());
                PopupPlan {
                    main_area: second[0],
                    focus_main: false,
                    drawing: PopupDrawing::PlaylistPicker {
                        search_area: first[0],
                        search_title: String::from_str("Search Playlists (type to search, backspace on empty to close)"),
                        search_text,
                        list_area: second[1],
                        title: String::from_str("User Playlists"),
                        lines: playlist_list_lines(action, data),
                        selected: selected_of(*list),
                    },
                }
            },
            PopupState::UserFollowedArtistList { list } =>
                docked_list_plan(first, String::from_str("User Followed Artists"), unmarked_lines(&data.followed_artists), selected_of(*list)),
            PopupState::UserSavedAlbumList { list } =>
                docked_list_plan(first, String::from_str("User Saved Albums"), unmarked_lines(&data.saved_albums), selected_of(*list)),
            PopupState::ArtistList { artists, list } =>
                docked_list_plan(first, String::from_str("Artists"), unmarked_lines(artists), selected_of(*list)),
            PopupState::ConfirmAction { message } => {
                let text = message.clone().concat(" (y/n)");
                docked_text_box_plan(first, String::from_str("Confirm"), text)
            },
        },
    }
}

/// Whether `plan_popup` can lay out the popup of `ui` over `rect` without
/// leaving `u16` (see `popup_fits`).
pub fn can_plan_popup(ui: &UIState, rect: Rect) -> (ok: bool)
    ensures
        ok == popup_fits(ui.popup, ui.mouse_popup_anchor, rect),
{
    match &ui.popup {
        Some(PopupState::ActionList { item_name, actions, .. }) => {
            let n = actions.len() as u16;
            if n > u16::MAX - 2 {
                return false;
            }
            match ui.mouse_popup_anchor {
                None => true,
                Some(_) => {
                    let title = String::from_str("Actions on ").concat(item_name.as_str());
                    let lines = action_line_strings(actions);
                    let widest = widest_label(title.as_str(), lines.as_slice()) as u16;
                    if widest > u16::MAX - 4 {
                        return false;
                    }
                    let width = (widest + 4).max(20).min(rect.width);
                    let height = (n + 2).min(rect.height);
                    let right = rect.x as u32 + (rect.width - width) as u32;
                    let bottom = rect.y as u32 + (rect.height - height) as u32;
                    right <= u16::MAX as u32 && bottom <= u16::MAX as u32
                },
            }
        },
        _ => true,
    }
}

} // verus!
