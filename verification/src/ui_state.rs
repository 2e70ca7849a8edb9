use vstd::prelude::*;
use crate::config::{KeySequence, Theme};
use crate::geometry::{ActiveListRect, Rect};
use crate::page::{PageState, PageType};
use crate::popup_state::PopupState;
use crate::search::{filtered_items_from_query, label_views, matching_indices};

verus! {

/// How the screen is laid out: playback window beside or above the main content.
#[derive(Clone, Copy, Debug, PartialEq, Eq, Structural)]
pub enum Orientation {
    Vertical,
    Horizontal,
}

/// Application's UI state.
#[derive(Debug)]
pub struct UIState {
    pub is_running: bool,
    pub theme: Theme,
    pub input_key_sequence: KeySequence,
    pub orientation: Orientation,
    /// the pages visited, the current one last
    pub history: Vec<PageState>,
    pub popup: Option<PopupState>,
    /// The rectangle representing the playback progress bar,
    /// which is mainly used to handle mouse click events (for seeking command)
    pub playback_progress_bar_rect: Rect,
    /// The main content rect, recomputed every frame; coarse fallback for mouse hit-testing.
    pub content_area_rect: Rect,
    /// The exact rect of whichever list/table widget is currently focused;
    /// `None` if the current page has no focusable list.
    pub active_list_rect: Option<ActiveListRect>,
    /// Terminal coordinates of the last right-click, if a popup opened because
    /// of it; cleared once the popup closes.
    pub mouse_popup_anchor: Option<(u16, u16)>,
    /// Count prefix for vim-style navigation (e.g., 5j, 10k)
    pub count_prefix: Option<usize>,
}

/// Some page of `history` is of kind `t`.
pub open spec fn has_page_of_type(history: Seq<PageState>, t: PageType) -> bool {
    exists|i: int| 0 <= i < history.len() && #[trigger] history[i].page_type == t
}

/// `pos` is the first page of kind `t` in `history`.
pub open spec fn is_first_of_type(history: Seq<PageState>, t: PageType, pos: int) -> bool {
    &&& 0 <= pos < history.len()
    &&& history[pos].page_type == t
    &&& forall|j: int| 0 <= j < pos ==> #[trigger] history[j].page_type != t
}

/// The position of the first page of kind `t` (meaningful when there is one).
pub open spec fn first_of_type(history: Seq<PageState>, t: PageType) -> int {
    choose|pos: int| is_first_of_type(history, t, pos)
}

/// `history` with the page at `pos` taken out and put on top.
pub open spec fn move_to_top(history: Seq<PageState>, pos: int) -> Seq<PageState> {
    history.remove(pos).push(history[pos])
}

/// The history after switching to kind `t`: the first page of that kind moves
/// on top, or `fresh` is pushed when there is none.
pub open spec fn switched_history(history: Seq<PageState>, t: PageType, fresh: PageState) -> Seq<PageState> {
    if has_page_of_type(history, t) {
        move_to_top(history, first_of_type(history, t))
    } else {
        history.push(fresh)
    }
}

/// The history after opening `page`: unchanged when `page` equals the current
/// page, else `page` pushed on top.
pub open spec fn opened_history(history: Seq<PageState>, page: PageState) -> Seq<PageState> {
    if history.len() > 0 && page.same_page(history.last()) {
        history
    } else {
        history.push(page)
    }
}

/// A popup is open and it takes the keyboard focus (every popup but the search box).
pub open spec fn popup_has_focus(popup: Option<PopupState>) -> bool {
    match popup {
        None => false,
        Some(PopupState::Search { .. }) => false,
        Some(_) => true,
    }
}

/// The indices of the items that a list shows under `popup`: those the search
/// query keeps while the search box is open, all of them otherwise.
pub open spec fn visible_indices(popup: Option<PopupState>, labels: Seq<Seq<char>>) -> Seq<int> {
    match popup {
        Some(PopupState::Search { query }) => matching_indices(query@, labels),
        _ => Seq::new(labels.len(), |i: int| i),
    }
}

proof fn lemma_first_of_type_below(history: Seq<PageState>, t: PageType, i: int)
    requires
        0 <= i < history.len(),
        history[i].page_type == t,
    ensures
        exists|pos: int| pos <= i && is_first_of_type(history, t, pos),
    decreases i,
{
    if exists|j: int| 0 <= j < i && #[trigger] history[j].page_type == t {
        let j = choose|j: int| 0 <= j < i && #[trigger] history[j].page_type == t;
        lemma_first_of_type_below(history, t, j);
    } else {
        assert(is_first_of_type(history, t, i));
    }
}

/// When a page of kind `t` exists, `first_of_type` is the first such page.
pub proof fn lemma_first_of_type(history: Seq<PageState>, t: PageType)
    requires
        has_page_of_type(history, t),
    ensures
        is_first_of_type(history, t, first_of_type(history, t)),
{
    let i = choose|i: int| 0 <= i < history.len() && #[trigger] history[i].page_type == t;
    lemma_first_of_type_below(history, t, i);
}

impl UIState {
    /// Every field but the history and the popup agrees.
    pub open spec fn same_settings(self, other: UIState) -> bool {
        &&& self.is_running == other.is_running
        &&& self.theme == other.theme
        &&& self.input_key_sequence == other.input_key_sequence
        &&& self.orientation == other.orientation
        &&& self.playback_progress_bar_rect == other.playback_progress_bar_rect
        &&& self.content_area_rect == other.content_area_rect
        &&& self.active_list_rect == other.active_list_rect
        &&& self.mouse_popup_anchor == other.mouse_popup_anchor
        &&& self.count_prefix == other.count_prefix
    }

    /// Every field but the history, the popup and the click position agrees.
    pub open spec fn same_settings_but_anchor(self, other: UIState) -> bool {
        &&& self.is_running == other.is_running
        &&& self.theme == other.theme
        &&& self.input_key_sequence == other.input_key_sequence
        &&& self.orientation == other.orientation
        &&& self.playback_progress_bar_rect == other.playback_progress_bar_rect
        &&& self.content_area_rect == other.content_area_rect
        &&& self.active_list_rect == other.active_list_rect
        &&& self.count_prefix == other.count_prefix
    }

    /// The state a session starts in: running, the library page open, no popup,
    /// no key typed, no rect measured yet.
    pub fn new(theme: Theme, orientation: Orientation) -> (ui: UIState)
        ensures
            ui.is_running,
            ui.theme == theme,
            ui.input_key_sequence@ == Seq::<Seq<char>>::empty(),
            ui.orientation == orientation,
            ui.history@.len() == 1,
            ui.history@[0].page_type == PageType::Library,
            ui.history@[0].context_id@ == Seq::<char>::empty(),
            ui.history@[0].selected == 0,
            ui.popup is None,
            ui.playback_progress_bar_rect == (Rect { x: 0, y: 0, width: 0, height: 0 }),
            ui.content_area_rect == (Rect { x: 0, y: 0, width: 0, height: 0 }),
            ui.active_list_rect is None,
            ui.mouse_popup_anchor is None,
            ui.count_prefix is None,
    {
        let mut history: Vec<PageState> = Vec::new();
        history.push(PageState::library());
        UIState {
            is_running: true,
            theme,
            input_key_sequence: KeySequence::empty(),
            orientation,
            history,
            popup: None,
            playback_progress_bar_rect: Rect::zero(),
            content_area_rect: Rect::zero(),
            active_list_rect: None,
            mouse_popup_anchor: None,
            count_prefix: None,
        }
    }

    /// The page on top of the history.
    pub fn current_page(&self) -> (p: &PageState)
        requires
            self.history@.len() > 0,
        ensures
            *p == self.history@.last(),
    {
        let n = self.history.len();
        &self.history[n - 1]
    }

    /// The page on top of the history, to change it in place.
    pub fn current_page_mut(&mut self) -> (p: &mut PageState)
        requires
            old(self).history@.len() > 0,
        ensures
            *p == old(self).history@.last(),
            final(self).history@ == old(self).history@.update(old(self).history@.len() - 1, *final(p)),
            final(self).popup == old(self).popup,
            final(self).same_settings(*old(self)),
    {
        let n = self.history.len();
        &mut self.history[n - 1]
    }
    /// Opens the search box with an empty query, moving the cursor of the
    /// current page to its first item.
    pub fn new_search_popup(&mut self)
        requires
            old(self).history@.len() > 0,
        ensures
            final(self).history@.len() == old(self).history@.len(),
            forall|i: int| 0 <= i < old(self).history@.len() - 1 ==> final(self).history@[i] == old(self).history@[i],
            final(self).history@.last().selected == 0,
            final(self).history@.last().page_type == old(self).history@.last().page_type,
            final(self).history@.last().context_id@ == old(self).history@.last().context_id@,
            final(self).popup matches Some(PopupState::Search { query }) && query@ == Seq::<char>::empty(),
            final(self).same_settings(*old(self)),
    {
        self.current_page_mut().select(0);
        self.popup = Some(PopupState::Search { query: String::new() });
    }

    /// Opens `page` on top of the history, closing any popup; a page equal to
    /// the current one is not pushed a second time.
    pub fn new_page(&mut self, page: PageState)
        ensures
            final(self).popup is None,
            final(self).history@ == opened_history(old(self).history@, page),
            final(self).history@.len() > 0,
            final(self).history@.last().same_page(page),
            final(self).same_settings(*old(self)),
    {
        self.popup = None;
        let n = self.history.len();
        if n > 0 {
            if page == self.history[n - 1] {
                return;
            }
        }
        self.history.push(page);
    }

    /// Switches to a page of kind `page_type`, reusing the first page of that
    /// kind in the history (moved on top, its state kept) or, when there is
    /// none, pushing the page that `make_default` builds. Closes any popup.
    ///
    /// Returns `true` when a fresh page was pushed, `false` when one was reused.
    pub fn switch_to_page(&mut self, page_type: PageType, make_default: impl FnOnce() -> PageState) -> (fresh: bool)
        requires
            make_default.requires(()),
        ensures
            final(self).popup is None,
            fresh == !has_page_of_type(old(self).history@, page_type),
            !fresh ==> final(self).history@ == move_to_top(old(self).history@, first_of_type(old(self).history@, page_type)),
            fresh ==> exists|page: PageState| make_default.ensures((), page)
                && final(self).history@ == old(self).history@.push(page),
            forall|page: PageState| (fresh ==> final(self).history@ == old(self).history@.push(page))
                ==> final(self).history@ == switched_history(old(self).history@, page_type, page),
            final(self).same_settings(*old(self)),
    {
        self.popup = None;
        let n = self.history.len();
        let mut i: usize = 0;
        while i < n
            invariant
                n == self.history@.len(),
                self.history@ == old(self).history@,
                self.popup is None,
                self.same_settings(*old(self)),
                i <= n,
                forall|j: int| 0 <= j < i ==> #[trigger] self.history@[j].page_type != page_type,
            decreases n - i,
        {
            if self.history[i].page_type() == page_type {
                proof {
                    assert(is_first_of_type(old(self).history@, page_type, i as int));
                    assert(has_page_of_type(old(self).history@, page_type));
                    lemma_first_of_type(old(self).history@, page_type);
                    let p = first_of_type(old(self).history@, page_type);
                    assert(p == i) by {
                        if p < i {
                            assert(old(self).history@[p].page_type != page_type);
                        } else if p > i {
                            assert(old(self).history@[i as int].page_type != page_type);
                        }
                    }
                }
                if i != n - 1 {
                    let page = self.history.remove(i);
                    self.history.push(page);
                } else {
                    proof {
                        assert(old(self).history@.remove(i as int).push(old(self).history@[i as int]) =~= old(self).history@);
                    }
                }
                return false;
            }
            i = i + 1;
        }
        proof {
            assert(!has_page_of_type(old(self).history@, page_type));
        }
        let page = make_default();
        self.history.push(page);
        true
    }

    /// Whether a popup is open that holds the keyboard focus; the search box
    /// is the one popup that leaves it to the page.
    pub fn has_focused_popup(&self) -> (r: bool)
        ensures
            r == popup_has_focus(self.popup),
            r == (self.popup matches Some(p) && !(p is Search)),
    {
        match &self.popup {
            None => false,
            Some(popup) => match popup {
                PopupState::Search { .. } => false,
                _ => true,
            },
        }
    }

    /// The items a list shows: while the search box is open, those whose
    /// labels its query keeps (see `filtered_items_from_query`); all of them
    /// otherwise. `labels[i]` is the text shown for `items[i]`.
    pub fn search_filtered_items<'a, T>(&self, items: &'a [T], labels: &[String]) -> (r: Vec<&'a T>)
        requires
            items@.len() == labels@.len(),
        ensures
            r@.len() == visible_indices(self.popup, label_views(labels@)).len(),
            forall|k: int| 0 <= k < r@.len() ==>
                *r@[k] == items@[#[trigger] visible_indices(self.popup, label_views(labels@))[k]],
            !(self.popup matches Some(p) && p is Search) ==> {
                &&& r@.len() == items@.len()
                &&& forall|k: int| 0 <= k < r@.len() ==> *#[trigger] r@[k] == items@[k]
            },
    {
        match &self.popup {
            Some(PopupState::Search { query }) => filtered_items_from_query(query.as_str(), items, labels),
            _ => {
                let mut r: Vec<&'a T> = Vec::new();
                let mut i: usize = 0;
                while i < items.len()
                    invariant
                        i <= items@.len(),
                        r@.len() == i,
                        forall|k: int| 0 <= k < i ==> *r@[k] == items@[k],
                    decreases items@.len() - i,
                {
                    r.push(&items[i]);
                    i = i + 1;
                }
                r
            },
        }
    }
}

} // verus!
