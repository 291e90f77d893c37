//! The state behind the presentation shell and the one entry point through
//! which user events change it. The shell performs an event, then renders the
//! projection of the new state.

use vstd::prelude::*;
use crate::projection::{project, visible_rows, ViewModel};
use crate::record::{RecordStore, RecordView};
use crate::row::{row_views, RowView};
use crate::selection::{selected_sum, toggled, within_store, SelectionSet};
use crate::sort::{clicked, SortColumn, SortDirection, SortDirective};
use crate::view_state::{normalized_search, search_is_normal, ViewState, ViewStateView};

verus! {

/// What the user can do: click the checkbox of the row of a record, type
/// into the search box, pick a page, click a column header.
#[derive(Debug)]
pub enum Event {
    Toggle(usize),
    Search(String),
    Page(usize),
    SortClick(SortColumn),
}

/// What an event holds, as plain values.
pub enum EventView {
    Toggle(usize),
    Search(Seq<char>),
    Page(nat),
    SortClick(SortColumn),
}

impl View for Event {
    type V = EventView;

    open spec fn view(&self) -> EventView {
        match self {
            Event::Toggle(index) => EventView::Toggle(*index),
            Event::Search(text) => EventView::Search(text@),
            Event::Page(page) => EventView::Page(*page as nat),
            Event::SortClick(column) => EventView::SortClick(*column),
        }
    }
}

/// What the state holds, as plain values.
pub struct TableStateView {
    pub records: Seq<RecordView>,
    pub selection: Set<usize>,
    pub view: ViewStateView,
    pub directive: SortDirective,
    pub page_size: nat,
}

/// The state at the start of a session: nothing selected, page 0, no filter,
/// no order.
pub open spec fn initial_state(records: Seq<RecordView>, page_size: nat) -> TableStateView {
    TableStateView {
        records,
        selection: Set::empty(),
        view: ViewStateView { page: 0, search: None },
        directive: SortDirective { column: SortColumn::Select, direction: SortDirection::Unordered },
        page_size,
    }
}

/// The state after an event. Each event changes one piece of the state and
/// leaves the others, and none changes the records or the page size.
pub open spec fn state_after(state: TableStateView, event: EventView) -> TableStateView {
    match event {
        EventView::Toggle(index) => TableStateView {
            selection: toggled(state.selection, index),
            ..state
        },
        EventView::Search(text) => TableStateView {
            view: ViewStateView { page: state.view.page, search: normalized_search(text) },
            ..state
        },
        EventView::Page(page) => TableStateView {
            view: ViewStateView { page, search: state.view.search },
            ..state
        },
        EventView::SortClick(column) => TableStateView {
            directive: clicked(state.directive, column),
            ..state
        },
    }
}

/// The invariants of the state: every selected position is a position of
/// the store, and the filter is not the empty text.
pub open spec fn state_is_valid(state: TableStateView) -> bool {
    &&& within_store(state.selection, state.records.len())
    &&& search_is_normal(state.view.search)
}

/// An event that the rendered table can give: a toggle names a row that
/// exists.
pub open spec fn event_fits(state: TableStateView, event: EventView) -> bool {
    event matches EventView::Toggle(index) ==> index < state.records.len()
}

/// The rows that a state shows.
pub open spec fn shown_rows(state: TableStateView) -> Seq<RowView> {
    visible_rows(state.records, state.selection, state.view, state.directive, state.page_size)
}

/// The sum that a state shows.
pub open spec fn shown_sum(state: TableStateView) -> int {
    selected_sum(state.records, state.selection)
}

/// The whole state of the table: the records, the selection, the view state
/// and the sort directive, owned in one place.
#[derive(Debug)]
pub struct TableState {
    records: RecordStore,
    selection: SelectionSet,
    view: ViewState,
    directive: SortDirective,
    page_size: usize,
}

impl View for TableState {
    type V = TableStateView;

    closed spec fn view(&self) -> TableStateView {
        TableStateView {
            records: self.records@,
            selection: self.selection@,
            view: self.view@,
            directive: self.directive,
            page_size: self.page_size as nat,
        }
    }
}

impl TableState {
    /// The state at the start of a session over `records`.
    pub fn new(records: RecordStore, page_size: usize) -> (state: TableState)
        ensures
            state@ == initial_state(records@, page_size as nat),
            state_is_valid(state@),
    {
        TableState {
            records,
            selection: SelectionSet::new(),
            view: ViewState::new(),
            directive: SortDirective::unordered(),
            page_size,
        }
    }

    /// Performs one event. A valid state stays valid under every event that
    /// the rendered table can give.
    pub fn apply(&mut self, event: Event)
        ensures
            final(self)@ == state_after(old(self)@, event@),
            state_is_valid(old(self)@) && event_fits(old(self)@, event@) ==> state_is_valid(
                final(self)@,
            ),
    {
        match event {
            Event::Toggle(index) => {
                self.selection.toggle(index);
            },
            Event::Search(text) => {
                self.view.set_search(text);
            },
            Event::Page(page) => {
                self.view.set_page(page);
            },
            Event::SortClick(column) => {
                self.directive = self.directive.click(column);
            },
        }
    }

    /// What the shell renders for this state.
    pub fn project(&self) -> (model: ViewModel)
        ensures
            row_views(model.rows@) == shown_rows(self@),
            model.sum == shown_sum(self@),
    {
        project(&self.records, &self.selection, &self.view, self.directive, self.page_size)
    }

    /// The records of the session.
    pub fn records(&self) -> (records: &RecordStore)
        ensures
            records@ == self@.records,
    {
        &self.records
    }

    /// The current selection.
    pub fn selection(&self) -> (selection: &SelectionSet)
        ensures
            selection@ == self@.selection,
    {
        &self.selection
    }

    /// The current page and filter.
    pub fn view_state(&self) -> (view: &ViewState)
        ensures
            view@ == self@.view,
    {
        &self.view
    }

    /// The current sort directive.
    pub fn directive(&self) -> (directive: SortDirective)
        ensures
            directive == self@.directive,
    {
        self.directive
    }

    /// The number of rows on a page.
    pub fn page_size(&self) -> (page_size: usize)
        ensures
            page_size == self@.page_size,
    {
        self.page_size
    }
}

} // verus!
