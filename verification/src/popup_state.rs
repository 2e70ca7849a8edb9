use vstd::prelude::*;
use crate::config::Theme;

verus! {

/// The part of a list widget's state that popups keep between frames:
/// the selected row and the first row in view.
#[derive(Clone, Copy, Debug, PartialEq, Eq, Structural)]
pub struct ListState {
    pub selected: Option<usize>,
    pub offset: usize,
}

impl ListState {
    /// A list whose first row is selected and in view.
    pub fn first_selected() -> (l: ListState)
        ensures
            l == (ListState { selected: Some(0), offset: 0 }),
    {
        ListState { selected: Some(0), offset: 0 }
    }
}

/// Which input box of the new-playlist popup has the focus.
#[derive(Clone, Copy, Debug, PartialEq, Eq, Structural)]
pub enum PlaylistCreateCurrentField {
    Name,
    Desc,
}

/// What the user-playlist popup was opened for, with the folder it shows
/// and the text typed into its search box.
#[derive(Clone, Debug)]
pub enum PlaylistPopupAction {
    Browse { folder_id: usize, search_query: String },
    AddTrack { folder_id: usize, track_id: String, search_query: String },
    AddEpisode { folder_id: usize, episode_id: String, search_query: String },
}

/// The popup that is open over the current page.
#[derive(Clone, Debug)]
pub enum PopupState {
    /// the search box that filters the focused list
    Search { query: String },
    /// the two input boxes that name and describe a new playlist
    PlaylistCreate { name: String, desc: String, current_field: PlaylistCreateCurrentField },
    /// the actions on an item: its name and one description per action
    ActionList { item_name: String, actions: Vec<String>, list: ListState },
    DeviceList { list: ListState },
    ThemeList { themes: Vec<Theme>, list: ListState },
    UserPlaylistList { action: PlaylistPopupAction, list: ListState },
    UserFollowedArtistList { list: ListState },
    UserSavedAlbumList { list: ListState },
    /// a choice among artists, by their display names
    ArtistList { artists: Vec<String>, list: ListState },
    /// a yes/no question
    ConfirmAction { message: String },
}

impl PlaylistPopupAction {
    pub open spec fn spec_search_query(self) -> Seq<char> {
        match self {
            PlaylistPopupAction::Browse { search_query, .. } => search_query@,
            PlaylistPopupAction::AddTrack { search_query, .. } => search_query@,
            PlaylistPopupAction::AddEpisode { search_query, .. } => search_query@,
        }
    }

    /// The text typed into the popup's search box.
    pub fn search_query(&self) -> (q: &String)
        ensures
            q@ == self.spec_search_query(),
    {
        match self {
            PlaylistPopupAction::Browse { search_query, .. } => search_query,
            PlaylistPopupAction::AddTrack { search_query, .. } => search_query,
            PlaylistPopupAction::AddEpisode { search_query, .. } => search_query,
        }
    }
}

impl PopupState {
    /// The list state of a list popup; `None` for the popups without a list.
    pub open spec fn spec_list_state(self) -> Option<ListState> {
        match self {
            PopupState::ActionList { list, .. } => Some(list),
            PopupState::DeviceList { list } => Some(list),
            PopupState::ThemeList { list, .. } => Some(list),
            PopupState::UserPlaylistList { list, .. } => Some(list),
            PopupState::UserFollowedArtistList { list } => Some(list),
            PopupState::UserSavedAlbumList { list } => Some(list),
            PopupState::ArtistList { list, .. } => Some(list),
            _ => None,
        }
    }

    /// The list state of a list popup; `None` for the popups without a list.
    pub fn list_state(&self) -> (l: Option<ListState>)
        ensures
            l == self.spec_list_state(),
    {
        match self {
            PopupState::ActionList { list, .. } => Some(*list),
            PopupState::DeviceList { list } => Some(*list),
            PopupState::ThemeList { list, .. } => Some(*list),
            PopupState::UserPlaylistList { list, .. } => Some(*list),
            PopupState::UserFollowedArtistList { list } => Some(*list),
            PopupState::UserSavedAlbumList { list } => Some(*list),
            PopupState::ArtistList { list, .. } => Some(*list),
            _ => None,
        }
    }

    /// The selected row of a list popup.
    pub fn list_selected(&self) -> (s: Option<usize>)
        ensures
            s == (match self.spec_list_state() {
                Some(l) => l.selected,
                None => None,
            }),
    {
        match self.list_state() {
            Some(l) => l.selected,
            None => None,
        }
    }

    /// Replaces the list state of a list popup; other popups are left as they are.
    pub fn set_list_state(&mut self, state: ListState)
        ensures
            old(self).spec_list_state() is Some ==> final(self).spec_list_state() == Some(state),
            old(self).spec_list_state() is None ==> *final(self) == *old(self),
            final(self).same_kind(*old(self)),
    {
        match self {
            PopupState::ActionList { list, .. } => *list = state,
            PopupState::DeviceList { list } => *list = state,
            PopupState::ThemeList { list, .. } => *list = state,
            PopupState::UserPlaylistList { list, .. } => *list = state,
            PopupState::UserFollowedArtistList { list } => *list = state,
            PopupState::UserSavedAlbumList { list } => *list = state,
            PopupState::ArtistList { list, .. } => *list = state,
            _ => {},
        }
    }

    /// Both popups are of the same kind and differ at most in their list state.
    pub open spec fn same_kind(self, other: PopupState) -> bool {
        match (self, other) {
            (PopupState::ActionList { item_name: a, actions: b, .. }, PopupState::ActionList { item_name: c, actions: d, .. }) => a == c && b == d,
            (PopupState::DeviceList { .. }, PopupState::DeviceList { .. }) => true,
            (PopupState::ThemeList { themes: a, .. }, PopupState::ThemeList { themes: b, .. }) => a == b,
            (PopupState::UserPlaylistList { action: a, .. }, PopupState::UserPlaylistList { action: b, .. }) => a == b,
            (PopupState::UserFollowedArtistList { .. }, PopupState::UserFollowedArtistList { .. }) => true,
            (PopupState::UserSavedAlbumList { .. }, PopupState::UserSavedAlbumList { .. }) => true,
            (PopupState::ArtistList { artists: a, .. }, PopupState::ArtistList { artists: b, .. }) => a == b,
            _ => self == other,
        }
    }
}

} // verus!
