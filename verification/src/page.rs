use vstd::prelude::*;

verus! {

/// The kinds of pages the application can show.
#[derive(Clone, Copy, Debug, PartialEq, Eq, Structural)]
pub enum PageType {
    Library,
    Search,
    Browse,
    Queue,
    CommandHelp,
    Logs,
    /// a playlist, album or artist page; parameterised by the context's id
    Context,
}

/// One page of the navigation history: its kind, the id of what it shows
/// (the playlist/album/artist of a `Context` page, empty for the other kinds)
/// and the cursor position in its focused list.
#[derive(Clone, Debug)]
pub struct PageState {
    pub page_type: PageType,
    pub context_id: String,
    pub selected: usize,
}

impl PartialEq for PageState {
    fn eq(&self, other: &Self) -> (r: bool) {
        self.page_type == other.page_type && self.context_id == other.context_id && self.selected
            == other.selected
    }
}

impl vstd::std_specs::cmp::PartialEqSpecImpl for PageState {
    open spec fn obeys_eq_spec() -> bool {
        true
    }

    open spec fn eq_spec(&self, other: &Self) -> bool {
        self.same_page(*other)
    }
}

impl PageState {
    /// Two pages are equal when kind, content and cursor all agree.
    pub open spec fn same_page(self, other: PageState) -> bool {
        &&& self.page_type == other.page_type
        &&& self.context_id@ == other.context_id@
        &&& self.selected == other.selected
    }

    /// A fresh page of the given kind showing `context_id`, cursor on the first item.
    pub fn new(page_type: PageType, context_id: String) -> (p: PageState)
        ensures
            p.page_type == page_type,
            p.context_id@ == context_id@,
            p.selected == 0,
    {
        PageState { page_type, context_id, selected: 0 }
    }

    /// A fresh library page.
    pub fn library() -> (p: PageState)
        ensures
            p.page_type == PageType::Library,
            p.context_id@ == Seq::<char>::empty(),
            p.selected == 0,
    {
        PageState { page_type: PageType::Library, context_id: String::new(), selected: 0 }
    }

    /// The kind of this page.
    pub fn page_type(&self) -> (t: PageType)
        ensures
            t == self.page_type,
    {
        self.page_type
    }

    /// Moves the cursor of the page's focused list to item `id`.
    pub fn select(&mut self, id: usize)
        ensures
            final(self).selected == id,
            final(self).page_type == old(self).page_type,
            final(self).context_id@ == old(self).context_id@,
    {
        self.selected = id;
    }
}

} // verus!
