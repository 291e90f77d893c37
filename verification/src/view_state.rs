//! The page shown and the text searched for.

use vstd::prelude::*;

verus! {

/// What a view state holds, as plain values. `search` is `None` where no
/// filter applies.
pub struct ViewStateView {
    pub page: nat,
    pub search: Option<Seq<char>>,
}

/// The filter that a search input stands for: the empty text clears the
/// filter, any other text is kept as typed.
pub open spec fn normalized_search(text: Seq<char>) -> Option<Seq<char>> {
    if text.len() == 0 {
        None
    } else {
        Some(text)
    }
}

/// The characters of an optional search text.
pub open spec fn search_text(search: Option<&str>) -> Option<Seq<char>> {
    match search {
        Some(text) => Some(text@),
        None => None,
    }
}

/// The empty text is never held as a filter.
pub open spec fn search_is_normal(search: Option<Seq<char>>) -> bool {
    search matches Some(text) ==> text.len() > 0
}

/// The current page and the current search text.
#[derive(Debug)]
pub struct ViewState {
    page: usize,
    search: Option<String>,
}

impl View for ViewState {
    type V = ViewStateView;

    closed spec fn view(&self) -> ViewStateView {
        ViewStateView {
            page: self.page as nat,
            search: match self.search {
                Some(text) => Some(text@),
                None => None,
            },
        }
    }
}

impl Clone for ViewState {
    fn clone(&self) -> (copy: Self)
        ensures
            copy@ == self@,
    {
        ViewState {
            page: self.page,
            search: match &self.search {
                Some(text) => Some(text.clone()),
                None => None,
            },
        }
    }
}

impl ViewState {
    /// A view state is well formed where its filter is not the empty text.
    pub open spec fn well_formed(&self) -> bool {
        search_is_normal(self@.search)
    }

    /// Page 0 and no filter.
    pub fn new() -> (state: ViewState)
        ensures
            state@ == (ViewStateView { page: 0, search: None }),
            state.well_formed(),
    {
        ViewState { page: 0, search: None }
    }

    /// The current page.
    pub fn page(&self) -> (page: usize)
        ensures
            page == self@.page,
    {
        self.page
    }

    /// The current filter, if one applies.
    pub fn search(&self) -> (search: Option<&str>)
        ensures
            search_text(search) == self@.search,
    {
        match &self.search {
            Some(text) => Some(text.as_str()),
            None => None,
        }
    }

    /// Makes `page` the current page. No bound is checked: a page past the
    /// end shows no row.
    pub fn set_page(&mut self, page: usize)
        ensures
            final(self)@ == (ViewStateView { page: page as nat, search: old(self)@.search }),
            old(self).well_formed() ==> final(self).well_formed(),
    {
        self.page = page;
    }

    /// Takes the text of the search box: the empty text clears the filter,
    /// any other text becomes the filter as it is, case and all.
    pub fn set_search(&mut self, text: String)
        ensures
            final(self)@ == (ViewStateView {
                page: old(self)@.page,
                search: normalized_search(text@),
            }),
            final(self).well_formed(),
    {
        if text.as_str().is_empty() {
            self.search = None;
        } else {
            self.search = Some(text);
        }
    }
}

} // verus!
