//! What holds of the library as a whole: of the page history, the search box
//! and its query, the popups (where they are laid out, what they list and who
//! keeps the focus), the placement of right-click popups and the shortcut help.
use vstd::prelude::*;
use crate::page::{PageState, PageType};
use crate::geometry::Rect;
use crate::geometry::{lemma_split_outcome, split_outcome, Constraint, Direction};
use crate::popup::{
    anchored_fits, anchored_rect, docked_list_length, min_of, playlist_choices, playlist_lines, plans_popup,
    popup_splits, widest, PopupData,
    PopupDrawing, PopupPlan,
};
use crate::shortcut_help::{
    cut_into_rows, plans_shortcut_help, remaining_bindings, shortcut_entries, shortcut_help_split, table_row,
    KeymapView, ShortcutHelpPlan,
    SHORTCUT_TABLE_N_COLUMNS,
};
use crate::popup_state::{ListState, PlaylistPopupAction, PopupState};
use crate::search::{label_views, split_spaces, lemma_empty_query_keeps_all, lemma_matching_indices_in_range, matching_indices};
use crate::text::{joined, line_views};
use crate::ui_state::{
    first_of_type, has_page_of_type, lemma_first_of_type, move_to_top,
    opened_history, popup_has_focus, switched_history, visible_indices,
};

verus! {

/// No two pages of `history` are of the same kind.
pub open spec fn distinct_types(history: Seq<PageState>) -> bool {
    forall|i: int, j: int| 0 <= i < j < history.len() ==> history[i].page_type != history[j].page_type
}

/// At most one page of `history` is of kind `t`.
pub open spec fn at_most_one_of_type(history: Seq<PageState>, t: PageType) -> bool {
    forall|i: int, j: int|
        0 <= i < history.len() && 0 <= j < history.len() && history[i].page_type == t
            && history[j].page_type == t ==> i == j
}

/// No page of `history` equals the page right below it.
pub open spec fn no_repeated_neighbours(history: Seq<PageState>) -> bool {
    forall|i: int| 0 < i < history.len() ==> !(#[trigger] history[i]).same_page(history[i - 1])
}

proof fn lemma_move_to_top_index(history: Seq<PageState>, pos: int, i: int)
    requires
        0 <= pos < history.len(),
        0 <= i < history.len(),
    ensures
        move_to_top(history, pos)[i] == if i < pos {
            history[i]
        } else if i < history.len() - 1 {
            history[i + 1]
        } else {
            history[pos]
        },
{
}

/// Switching to a kind that is reused keeps every page, the reused one
/// unchanged on top (its scroll position and focus kept); a fresh page is
/// pushed only when no page of that kind exists.
pub proof fn lemma_switch_keeps_pages(history: Seq<PageState>, t: PageType, fresh: PageState)
    ensures
        has_page_of_type(history, t) ==> {
            &&& switched_history(history, t, fresh).len() == history.len()
            &&& switched_history(history, t, fresh).last() == history[first_of_type(history, t)]
            &&& switched_history(history, t, fresh).to_multiset() == history.to_multiset()
        },
        !has_page_of_type(history, t) ==> switched_history(history, t, fresh) == history.push(fresh),
{
    broadcast use vstd::seq_lib::group_to_multiset_ensures;

    if has_page_of_type(history, t) {
        lemma_first_of_type(history, t);
        let pos = first_of_type(history, t);
        let r = history.remove(pos);
        assert(r.push(history[pos]).to_multiset() =~= r.to_multiset().insert(history[pos]));
        assert(r.to_multiset() =~= history.to_multiset().remove(history[pos]));
    }
}

/// After a switch to kind `t` the current page is of kind `t`, provided the
/// page built for a missing kind is of that kind.
pub proof fn lemma_switch_lands_on_type(history: Seq<PageState>, t: PageType, fresh: PageState)
    requires
        fresh.page_type == t,
    ensures
        switched_history(history, t, fresh).len() > 0,
        switched_history(history, t, fresh).last().page_type == t,
{
    if has_page_of_type(history, t) {
        lemma_first_of_type(history, t);
    }
}

/// Switching keeps the kinds of the history distinct: a history built by
/// switches alone never holds two pages of one kind.
pub proof fn lemma_switch_keeps_types_distinct(history: Seq<PageState>, t: PageType, fresh: PageState)
    requires
        distinct_types(history),
        fresh.page_type == t,
    ensures
        distinct_types(switched_history(history, t, fresh)),
{
    let s = switched_history(history, t, fresh);
    if has_page_of_type(history, t) {
        lemma_first_of_type(history, t);
        let pos = first_of_type(history, t);
        assert forall|i: int, j: int| 0 <= i < j < s.len() implies s[i].page_type != s[j].page_type by {
            lemma_move_to_top_index(history, pos, i);
            lemma_move_to_top_index(history, pos, j);
        }
    } else {
        assert forall|i: int, j: int| 0 <= i < j < s.len() implies s[i].page_type != s[j].page_type by {
            if j == history.len() {
                assert(history[i].page_type != t);
            }
        }
    }
}

/// A history whose kinds are distinct holds at most one page per kind, so
/// it never grows past the number of kinds.
pub proof fn lemma_distinct_types_bounded(history: Seq<PageState>)
    requires
        distinct_types(history),
    ensures
        history.len() <= 7,
{
    broadcast use vstd::set::group_set_axioms;

    let types = history.map_values(|p: PageState| p.page_type);
    assert(types.no_duplicates());
    types.unique_seq_to_set();
    let all = set![
        PageType::Library,
        PageType::Search,
        PageType::Browse,
        PageType::Queue,
        PageType::CommandHelp,
        PageType::Logs,
        PageType::Context,
    ];
    assert(types.to_set().subset_of(all)) by {
        assert forall|t: PageType| types.to_set().contains(t) implies all.contains(t) by {
            match t {
                PageType::Library => {},
                PageType::Search => {},
                PageType::Browse => {},
                PageType::Queue => {},
                PageType::CommandHelp => {},
                PageType::Logs => {},
                PageType::Context => {},
            }
        }
    }
    vstd::set_lib::lemma_len_subset(types.to_set(), all);
    assert(all.len() == 7);
}

/// Switching twice to the same kind changes nothing the second time, as long
/// as the history held at most one page of that kind.
pub proof fn lemma_switch_twice(history: Seq<PageState>, t: PageType, fresh: PageState, other: PageState)
    requires
        at_most_one_of_type(history, t),
        fresh.page_type == t,
    ensures
        switched_history(switched_history(history, t, fresh), t, other) == switched_history(history, t, fresh),
{
    let s = switched_history(history, t, fresh);
    let n = s.len() as int;
    lemma_switch_lands_on_type(history, t, fresh);
    assert(at_most_one_of_type(s, t)) by {
        if has_page_of_type(history, t) {
            lemma_first_of_type(history, t);
            let pos = first_of_type(history, t);
            assert forall|i: int, j: int|
                0 <= i < s.len() && 0 <= j < s.len() && s[i].page_type == t && s[j].page_type == t
                implies i == j by {
                lemma_move_to_top_index(history, pos, i);
                lemma_move_to_top_index(history, pos, j);
            }
        } else {
            assert forall|i: int, j: int|
                0 <= i < s.len() && 0 <= j < s.len() && s[i].page_type == t && s[j].page_type == t
                implies i == j by {
                if i < history.len() {
                    assert(history[i].page_type != t);
                }
                if j < history.len() {
                    assert(history[j].page_type != t);
                }
            }
        }
    }
    assert(has_page_of_type(s, t));
    lemma_first_of_type(s, t);
    assert(first_of_type(s, t) == n - 1);
    assert(move_to_top(s, n - 1) =~= s);
}

/// Opening a page never puts a page right on top of an equal one.
pub proof fn lemma_open_page_no_repeats(history: Seq<PageState>, page: PageState)
    requires
        no_repeated_neighbours(history),
    ensures
        no_repeated_neighbours(opened_history(history, page)),
{
    let h = opened_history(history, page);
    assert forall|i: int| 0 < i < h.len() implies !(#[trigger] h[i]).same_page(h[i - 1]) by {
        if i == history.len() {
            assert(!page.same_page(history.last()));
        }
    }
}

/// While the freshly opened search box holds no query, a list shows every item.
pub proof fn lemma_fresh_search_shows_all(query: String, labels: Seq<Seq<char>>)
    requires
        query@.len() == 0,
    ensures
        visible_indices(Some(PopupState::Search { query }), labels) == Seq::new(labels.len(), |i: int| i),
{
    lemma_empty_query_keeps_all(query@, labels);
}

/// The rows of the shortcut table hold at most three bindings each, none is
/// empty, and read in order they give back every binding listed.
pub proof fn lemma_rows_read_back<A>(items: Seq<A>, rows: Seq<Seq<A>>)
    requires
        cut_into_rows(items, rows),
    ensures
        rows.flatten() == items,
        forall|r: int| 0 <= r < rows.len() ==> 0 < (#[trigger] rows[r]).len() <= SHORTCUT_TABLE_N_COLUMNS,
    decreases items.len(),
{
    if items.len() == 0 {
        assert(rows.len() == 0);
        assert(rows.flatten() =~= items);
    } else if items.len() <= SHORTCUT_TABLE_N_COLUMNS {
        assert(rows.len() == 1);
        assert(rows[0] == table_row(items, 0));
        assert(rows[0] =~= items);
        assert(rows.drop_first() =~= Seq::<Seq<A>>::empty());
        assert(rows.flatten() == rows[0] + rows.drop_first().flatten());
        assert(rows.flatten() =~= items);
    } else {
        let rest = items.skip(SHORTCUT_TABLE_N_COLUMNS as int);
        let later = rows.drop_first();
        assert(cut_into_rows(rest, later)) by {
            assert forall|r: int| 0 <= r < later.len() implies #[trigger] later[r] == table_row(rest, r) by {
                assert(later[r] == rows[r + 1]);
                assert(rows[r + 1] == table_row(items, r + 1));
                assert(table_row(items, r + 1) =~= table_row(rest, r));
            }
        }
        lemma_rows_read_back(rest, later);
        assert(rows[0] == table_row(items, 0));
        assert(rows.flatten() == rows[0] + later.flatten());
        assert(rows.flatten() =~= items);
        assert forall|r: int| 0 <= r < rows.len() implies 0 < (#[trigger] rows[r]).len() <= SHORTCUT_TABLE_N_COLUMNS by {
            if r > 0 {
                assert(rows[r] == later[r - 1]);
            }
        }
    }
}

/// Opening a page, then a page equal to it, is the same as opening it once.
pub proof fn lemma_open_page_twice(history: Seq<PageState>, page: PageState, again: PageState)
    requires
        again.same_page(page),
    ensures
        opened_history(opened_history(history, page), again) == opened_history(history, page),
{
    let once = opened_history(history, page);
    assert(once.len() > 0 && once.last().same_page(page));
    assert(again.same_page(once.last()));
}

/// A right-click popup follows the click: a click further right (or further
/// down) never places it further left (or further up), and its size does not
/// depend on where the click was.
pub proof fn lemma_anchored_follows_click(area: Rect, x1: u16, y1: u16, x2: u16, y2: u16, widest: nat, height: u16)
    requires
        anchored_fits(area, widest, height),
        x1 <= x2,
        y1 <= y2,
    ensures
        anchored_rect(area, x1, y1, widest, height).x <= anchored_rect(area, x2, y2, widest, height).x,
        anchored_rect(area, x1, y1, widest, height).y <= anchored_rect(area, x2, y2, widest, height).y,
        anchored_rect(area, x1, y1, widest, height).width == anchored_rect(area, x2, y2, widest, height).width,
        anchored_rect(area, x1, y1, widest, height).height == anchored_rect(area, x2, y2, widest, height).height,
{
}

/// The box of a popup drawn as a single box (a text box or a list).
pub open spec fn single_box(drawing: PopupDrawing) -> Option<Rect> {
    match drawing {
        PopupDrawing::TextBox { area, .. } => Some(area),
        PopupDrawing::List { area, .. } => Some(area),
        _ => None,
    }
}

/// A popup docked at the bottom (every one-box popup but the action list
/// opened by a right-click) takes the rows below the main area: both lie
/// inside `rect` and span its width, the main area above the popup's box,
/// whatever split the layout solver chose.
pub proof fn lemma_docked_popup_below_main(
    popup: PopupState,
    rect: Rect,
    data: PopupData,
    first: Seq<Rect>,
    second: Seq<Rect>,
    plan: PopupPlan,
)
    requires
        popup_splits(Some(popup), None, rect, first, second),
        plans_popup(Some(popup), None, rect, data, first, second, plan),
        !(popup is PlaylistCreate),
        !(popup is UserPlaylistList),
    ensures
        single_box(plan.drawing) matches Some(area) && {
            &&& rect.contains_rect(plan.main_area)
            &&& rect.contains_rect(area)
            &&& plan.main_area.x == rect.x && plan.main_area.width == rect.width
            &&& area.x == rect.x && area.width == rect.width
            &&& plan.main_area.y + plan.main_area.height <= area.y
        },
{
    let constraints = match popup {
        PopupState::Search { .. } | PopupState::ConfirmAction { .. } => seq![Constraint::Fill(0), Constraint::Length(3)],
        _ => seq![Constraint::Fill(0), Constraint::Length(docked_list_length(popup))],
    };
    lemma_split_outcome(Direction::Vertical, constraints, rect, first);
    assert(first.len() == 2);
    let a = first[0];
    let b = first[1];
    assert(a.y + a.height <= b.y);
}

/// With some binding to list, the shortcut table takes rows below the main
/// area: both lie inside `rect` and span its width, the main area above the
/// table, whatever split the layout solver chose.
pub proof fn lemma_shortcut_table_below_main(
    entries: Seq<KeymapView>,
    rect: Rect,
    chunks: Seq<Rect>,
    plan: ShortcutHelpPlan,
)
    requires
        entries.len() > 0,
        split_outcome(Direction::Vertical, shortcut_help_split(), rect, chunks),
        plans_shortcut_help(entries, rect, chunks, plan),
    ensures
        plan.table_area matches Some(table) && {
            &&& rect.contains_rect(plan.main_area)
            &&& rect.contains_rect(table)
            &&& plan.main_area.x == rect.x && plan.main_area.width == rect.width
            &&& table.x == rect.x && table.width == rect.width
            &&& plan.main_area.y + plan.main_area.height <= table.y
        },
{
    lemma_split_outcome(Direction::Vertical, shortcut_help_split(), rect, chunks);
    let a = chunks[0];
    let b = chunks[1];
    assert(a.y + a.height <= b.y);
}

/// The playlist popup offers, in order and unmarked, the playlists that its
/// search query keeps among those the user can add to when it was opened to
/// add a track or an episode, and among the folder's playlists when it was
/// opened to browse; with an empty query, every one of them.
pub proof fn lemma_playlist_picker_offers(
    action: PlaylistPopupAction,
    list: ListState,
    anchor: Option<(u16, u16)>,
    rect: Rect,
    data: PopupData,
    first: Seq<Rect>,
    second: Seq<Rect>,
    plan: PopupPlan,
)
    requires
        plans_popup(Some(PopupState::UserPlaylistList { action, list }), anchor, rect, data, first, second, plan),
    ensures
        plan.drawing matches PopupDrawing::PlaylistPicker { lines, .. } && {
            let pool = if action is Browse { data.folder_playlists@ } else { data.modifiable_playlists@ };
            let kept = matching_indices(action.spec_search_query(), label_views(pool));
            &&& lines@.len() == kept.len()
            &&& forall|k: int| 0 <= k < kept.len() ==> #[trigger] lines@[k].text@ == pool[kept[k]]@ && !lines@[k].marked
            &&& action.spec_search_query().len() == 0 ==> {
                &&& lines@.len() == pool.len()
                &&& forall|k: int| 0 <= k < pool.len() ==> #[trigger] lines@[k].text@ == pool[k]@
            }
        },
{
    let pool = if action is Browse { data.folder_playlists@ } else { data.modifiable_playlists@ };
    let q = action.spec_search_query();
    let kept = matching_indices(q, label_views(pool));
    assert(playlist_choices(action, data) == label_views(pool));
    if let PopupDrawing::PlaylistPicker { lines, .. } = plan.drawing {
        assert(line_views(lines@) == playlist_lines(action, data));
        assert(lines@.len() == line_views(lines@).len());
        assert forall|k: int| 0 <= k < kept.len() implies #[trigger] lines@[k].text@ == pool[kept[k]]@ && !lines@[k].marked by {
            lemma_matching_indices_in_range(q, label_views(pool), k);
            assert(line_views(lines@)[k] == (lines@[k].text@, lines@[k].marked));
        }
        if q.len() == 0 {
            lemma_empty_query_keeps_all(q, label_views(pool));
            assert forall|k: int| 0 <= k < pool.len() implies #[trigger] lines@[k].text@ == pool[k]@ by {
                assert(kept[k] == k);
                lemma_matching_indices_in_range(q, label_views(pool), k);
                assert(line_views(lines@)[k] == (lines@[k].text@, lines@[k].marked));
            }
        }
    }
}

proof fn lemma_widest_bounds(title: Seq<char>, items: Seq<Seq<char>>)
    ensures
        widest(title, items) >= title.len(),
        forall|i: int| 0 <= i < items.len() ==> widest(title, items) >= #[trigger] items[i].len(),
        widest(title, items) == title.len() || exists|i: int| 0 <= i < items.len() && widest(title, items) == #[trigger] items[i].len(),
    decreases items.len(),
{
    if items.len() > 0 {
        let rest = items.drop_last();
        lemma_widest_bounds(title, rest);
        assert forall|i: int| 0 <= i < items.len() implies widest(title, items) >= #[trigger] items[i].len() by {
            if i < items.len() - 1 {
                assert(rest[i] == items[i]);
            }
        }
        if widest(title, items) != title.len() && widest(title, items) != items.last().len() {
            let i = choose|i: int| 0 <= i < rest.len() && widest(title, rest) == #[trigger] rest[i].len();
            assert(items[i] == rest[i]);
        }
    }
}

/// A popup placed at a click is as wide as its title and each of its lines
/// plus four cells of borders and padding, as far as the area allows; and it
/// is no wider than that for its widest line, 20 cells or the area.
pub proof fn lemma_anchored_popup_fits_labels(
    area: Rect,
    click_x: u16,
    click_y: u16,
    title: Seq<char>,
    items: Seq<Seq<char>>,
    height: u16,
    r: Rect,
)
    requires
        r == anchored_rect(area, click_x, click_y, widest(title, items), height),
        title.len() + 4 <= u16::MAX,
        forall|i: int| 0 <= i < items.len() ==> #[trigger] items[i].len() + 4 <= u16::MAX,
    ensures
        r.width >= min_of(title.len() + 4 as int, area.width as int),
        forall|i: int| 0 <= i < items.len() ==> r.width >= min_of(#[trigger] items[i].len() + 4 as int, area.width as int),
        r.width == area.width || r.width == 20 || r.width == title.len() + 4
            || exists|i: int| 0 <= i < items.len() && r.width == #[trigger] items[i].len() + 4,
{
    lemma_widest_bounds(title, items);
    let w = widest(title, items);
    assert(w + 4 <= u16::MAX) by {
        if w != title.len() {
            let i = choose|i: int| 0 <= i < items.len() && w == #[trigger] items[i].len();
        }
    }
    assert((w as u16) == w);
    if r.width != area.width && r.width != 20 && r.width != title.len() + 4 {
        let i = choose|i: int| 0 <= i < items.len() && w == #[trigger] items[i].len();
        assert(r.width == items[i].len() + 4);
    }
}

/// Only a popup other than the search box holds the keyboard focus: none
/// does when no popup is open or the open one is the search box.
pub proof fn lemma_focused_popup(popup: Option<PopupState>)
    ensures
        popup_has_focus(popup) == (popup matches Some(p) && !(p is Search)),
{
}

/// Only the search box filters a page's list: under any other popup, or
/// none, every item is shown, in order.
pub proof fn lemma_only_search_box_filters(popup: Option<PopupState>, labels: Seq<Seq<char>>)
    requires
        !(popup matches Some(p) && p is Search),
    ensures
        visible_indices(popup, labels) == Seq::new(labels.len(), |i: int| i),
{
}

proof fn lemma_remaining_bindings_filter(n: nat, matches: Seq<KeymapView>)
    requires
        forall|i: int| 0 <= i < matches.len() ==> #[trigger] matches[i].0.len() >= n,
    ensures
        remaining_bindings(n, matches) == matches
            .filter(|m: KeymapView| m.0.len() > n && m.1 != "None"@)
            .map_values(|m: KeymapView| (m.0.skip(n as int), m.1)),
    decreases matches.len(),
{
    let pred = |m: KeymapView| m.0.len() > n && m.1 != "None"@;
    let cut = |m: KeymapView| (m.0.skip(n as int), m.1);
    if matches.len() > 0 {
        let rest = matches.drop_last();
        assert forall|i: int| 0 <= i < rest.len() implies #[trigger] rest[i].0.len() >= n by {
            assert(rest[i] == matches[i]);
        }
        lemma_remaining_bindings_filter(n, rest);
        let before = rest.filter(pred);
        reveal(Seq::filter);
        assert(matches.filter(pred) == if pred(matches.last()) { before.push(matches.last()) } else { before });
        if pred(matches.last()) {
            assert(before.push(matches.last()).map_values(cut) =~= before.map_values(cut).push(cut(matches.last())));
        }
    }
}

/// The shortcut help lists, in order, every binding that starts with the
/// typed keys, still needs a key and runs a command, with the typed keys
/// dropped, and nothing else; before any key is typed it lists nothing.
pub proof fn lemma_shortcut_help_lists_every_binding(input: Seq<Seq<char>>, matches: Seq<KeymapView>)
    requires
        input.len() > 0 ==> forall|i: int| 0 <= i < matches.len() ==> #[trigger] matches[i].0.len() >= input.len(),
    ensures
        input.len() == 0 ==> shortcut_entries(input, matches).len() == 0,
        input.len() > 0 ==> shortcut_entries(input, matches) == matches
            .filter(|m: KeymapView| m.0.len() > input.len() && m.1 != "None"@)
            .map_values(|m: KeymapView| (m.0.skip(input.len() as int), m.1)),
{
    if input.len() > 0 {
        lemma_remaining_bindings_filter(input.len(), matches);
    }
}

/// Splitting a query at single spaces gives at least one piece, no piece
/// holds a space, and the pieces joined again by single spaces give the
/// query back.
pub proof fn lemma_split_spaces_joins_back(s: Seq<char>)
    ensures
        split_spaces(s).len() >= 1,
        forall|k: int, j: int| 0 <= k < split_spaces(s).len() && 0 <= j < split_spaces(s)[k].len()
            ==> #[trigger] split_spaces(s)[k][j] != ' ',
        joined(split_spaces(s)) == s,
    decreases s.len(),
{
    if s.len() > 0 {
        let init = s.drop_last();
        lemma_split_spaces_joins_back(init);
        let pieces = split_spaces(init);
        let all = split_spaces(s);
        assert(s =~= init.push(s.last()));
        if s.last() == ' ' {
            assert(all == pieces.push(Seq::<char>::empty()));
            assert(all.drop_last() =~= pieces);
            assert(joined(all) =~= s);
            assert forall|k: int, j: int| 0 <= k < all.len() && 0 <= j < all[k].len() implies #[trigger] all[k][j] != ' ' by {
                assert(pieces[k] == all[k]);
            }
        } else {
            let last = pieces.last().push(s.last());
            assert(all == pieces.update(pieces.len() - 1, last));
            if pieces.len() == 1 {
                assert(joined(all) == all[0]);
                assert(joined(pieces) == pieces[0]);
                assert(joined(all) =~= s);
            } else {
                assert(all.drop_last() =~= pieces.drop_last());
                assert(joined(pieces) == joined(pieces.drop_last()) + seq![' '] + pieces.last());
                assert(joined(all) == joined(pieces.drop_last()) + seq![' '] + last);
                assert(joined(all) =~= s);
            }
            assert forall|k: int, j: int| 0 <= k < all.len() && 0 <= j < all[k].len() implies #[trigger] all[k][j] != ' ' by {
                if k < all.len() - 1 {
                    assert(pieces[k] == all[k]);
                } else if j < last.len() - 1 {
                    assert(all[k][j] == pieces.last()[j]);
                }
            }
        }
    }
}

/// Which popups leave the keyboard focus with the main layout: none open,
/// the search box, a confirmation and the new-playlist boxes; every list
/// popup takes it.
pub proof fn lemma_focus_stays_main(
    popup: Option<PopupState>,
    anchor: Option<(u16, u16)>,
    rect: Rect,
    data: PopupData,
    first: Seq<Rect>,
    second: Seq<Rect>,
    plan: PopupPlan,
)
    requires
        plans_popup(popup, anchor, rect, data, first, second, plan),
    ensures
        plan.focus_main == match popup {
            None => true,
            Some(PopupState::Search { .. }) | Some(PopupState::ConfirmAction { .. })
            | Some(PopupState::PlaylistCreate { .. }) => true,
            Some(_) => false,
        },
{
}

/// The rows a popup docked at the bottom asks the layout solver for: three
/// for the search box, a confirmation and the new-playlist boxes (split in
/// halves), two more than its actions for an action list opened from the
/// keyboard, five for the devices and the artists, seven for the themes,
/// followed artists and saved albums; the main area takes the rest. The
/// playlist picker takes three rows on top for its search box and ten at the
/// bottom for its list.
pub proof fn lemma_docked_popup_rows(
    popup: PopupState,
    rect: Rect,
    first: Seq<Rect>,
    second: Seq<Rect>,
)
    requires
        popup_splits(Some(popup), None, rect, first, second),
        popup matches PopupState::ActionList { actions, .. } ==> actions@.len() + 2 <= u16::MAX,
    ensures
        match popup {
            PopupState::PlaylistCreate { .. } => {
                &&& split_outcome(Direction::Vertical, seq![Constraint::Min(0), Constraint::Length(3)], rect, first)
                &&& split_outcome(Direction::Horizontal, seq![Constraint::Percentage(50), Constraint::Percentage(50)], first[1], second)
            },
            PopupState::UserPlaylistList { .. } => {
                &&& split_outcome(Direction::Vertical, seq![Constraint::Length(3), Constraint::Fill(0), Constraint::Length(10)], rect, first)
                &&& split_outcome(Direction::Vertical, seq![Constraint::Fill(0), Constraint::Length(10)], first[2], second)
            },
            PopupState::Search { .. } | PopupState::ConfirmAction { .. } =>
                split_outcome(Direction::Vertical, seq![Constraint::Fill(0), Constraint::Length(3)], rect, first),
            PopupState::ActionList { actions, .. } =>
                split_outcome(Direction::Vertical, seq![Constraint::Fill(0), Constraint::Length((actions@.len() + 2) as u16)], rect, first),
            PopupState::DeviceList { .. } | PopupState::ArtistList { .. } =>
                split_outcome(Direction::Vertical, seq![Constraint::Fill(0), Constraint::Length(5)], rect, first),
            _ => split_outcome(Direction::Vertical, seq![Constraint::Fill(0), Constraint::Length(7)], rect, first),
        },
{
    if let PopupState::ActionList { actions, .. } = popup {
        assert((actions@.len() as u16) == actions@.len());
        assert(docked_list_length(popup) == (actions@.len() + 2) as u16);
    }
}

} // verus!
