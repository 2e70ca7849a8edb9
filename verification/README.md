# spotify_player UI state

A verified library for the UI state of a terminal music player.

- `src/` is checked by Verus: the page history (opening pages, switching to a
  kind of page without growing the history), the popups and the search box,
  the filtering of lists by a search query, and the layout decisions of the
  popups (which parts of the solver's split they take, what they list, where a
  right-click popup is placed, how the shortcut help is cut into rows). `src/laws.rs` proves what holds across calls.
- The layout solver and string lowercasing are called from `src/` through two
  small trusted functions whose contracts are documented where they stand
  (`split_area`, `to_lowercase`). The solver's answers are taken as they come:
  the popup plans are stated for every answer it may give.
- `app/` holds what only runs against a terminal: the lock guard, the start-up
  state read from the terminal size, and the ratatui drawing of the planned
  popups.
- `tests/` runs the library on concrete values.
