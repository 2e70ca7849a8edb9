//! UI state of a terminal music player: the page history, the popup that is
//! open over it, the search box that filters lists, and the geometry that
//! decides where popups are drawn.

/// Rectangles and the layout solver that splits them.
pub mod geometry;
/// Themes and key bindings, as the UI state sees them.
pub mod config;
/// The pages of the navigation history.
pub mod page;
/// The popups that can be open over a page.
pub mod popup_state;
/// Filtering of list items by a search query.
pub mod search;
/// Numbers, key sequences and list lines as text.
pub mod text;
/// The UI state and the operations on its history and popup.
pub mod ui_state;
/// Where popups go and what they draw.
pub mod popup;
/// The shortcut help: which bindings it lists and how.
pub mod shortcut_help;
/// Properties that span calls: the history, the search box, the right-click
/// popup and the shortcut table.
pub mod laws;
