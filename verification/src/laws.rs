//! What holds of the table for every input: the laws of selection, sum,
//! filter, order and pages, each proved from the definitions.

use vstd::prelude::*;
use crate::field::{lemma_value_less_asymmetric, value_less};
use crate::order::{arranged, comes_first, is_stable_order, key_before, lemma_stable_order_exists,
    lemma_stable_order_keeps_items, stable_order};
use crate::projection::{all_rows, filtered_rows, page_of, passes, row_at, sort_keys, sorted_rows};
use crate::record::RecordView;
use crate::row::{field_of, row_matches, RowView};
use crate::selection::{selected_sum, toggled};
use crate::shell::{event_fits, shown_rows, shown_sum, state_after, state_is_valid, EventView,
    TableStateView};
use crate::sort::{clicked, column_name, column_named, SortColumn, SortDirection, SortDirective};
use crate::text::{decimal_text, lex_less, lowercase, matches_ignoring_case};
use crate::view_state::ViewStateView;

verus! {

/// Toggling the same index twice gives the selection back.
pub proof fn law_toggle_twice_restores(selection: Set<usize>, index: usize)
    ensures
        toggled(toggled(selection, index), index) == selection,
{
}

/// Two clicks on the same checkbox leave the whole state as it was.
pub proof fn law_toggle_event_twice_restores(state: TableStateView, index: usize)
    ensures
        state_after(state_after(state, EventView::Toggle(index)), EventView::Toggle(index))
            == state,
{
    law_toggle_twice_restores(state.selection, index);
}

/// With nothing selected the sum is 0.
pub proof fn law_empty_selection_sums_to_zero(records: Seq<RecordView>)
    ensures
        selected_sum(records, Set::<usize>::empty()) == 0,
    decreases records.len(),
{
    if records.len() > 0 {
        law_empty_selection_sums_to_zero(records.drop_last());
    }
}

/// What a toggle of `index` adds to the sum: the record's value where it
/// becomes selected, its negative where it is deselected, nothing where
/// `index` is no position of the store.
pub open spec fn toggle_gain(records: Seq<RecordView>, selection: Set<usize>, index: usize) -> int {
    if index >= records.len() {
        0
    } else if selection.contains(index) {
        -records[index as int].value
    } else {
        records[index as int].value
    }
}

/// A toggle changes the sum by the value of the toggled record and by
/// nothing else: the sum is the sum of `value` over exactly the selected
/// positions.
pub proof fn law_toggle_moves_sum_by_one_value(
    records: Seq<RecordView>,
    selection: Set<usize>,
    index: usize,
)
    ensures
        selected_sum(records, toggled(selection, index)) == selected_sum(records, selection)
            + toggle_gain(records, selection, index),
    decreases records.len(),
{
    if records.len() > 0 {
        law_toggle_moves_sum_by_one_value(records.drop_last(), selection, index);
    }
}

/// The sum of `value` over the rows whose box is checked.
pub open spec fn checked_sum(rows: Seq<RowView>) -> int
    decreases rows.len(),
{
    if rows.len() == 0 {
        0
    } else if rows.last().checked {
        checked_sum(rows.drop_last()) + rows.last().value
    } else {
        checked_sum(rows.drop_last())
    }
}

/// The sum over the selection is the sum over the checked rows among all
/// rows of the store, filtered or not, shown or not.
pub proof fn law_sum_is_the_sum_of_the_checked_rows(records: Seq<RecordView>, selection: Set<usize>)
    ensures
        selected_sum(records, selection) == checked_sum(all_rows(records, selection)),
    decreases records.len(),
{
    if records.len() > 0 {
        law_sum_is_the_sum_of_the_checked_rows(records.drop_last(), selection);
        assert(all_rows(records, selection).drop_last() =~= all_rows(
            records.drop_last(),
            selection,
        ));
    }
}

/// A toggle flips the box of the row at the toggled position and of no
/// other row, and changes no other field.
pub proof fn law_toggle_flips_one_box(
    records: Seq<RecordView>,
    selection: Set<usize>,
    index: usize,
    position: int,
)
    requires
        0 <= position < records.len(),
    ensures
        row_at(records, toggled(selection, index), position) == (RowView {
            checked: if position == index {
                !row_at(records, selection, position).checked
            } else {
                row_at(records, selection, position).checked
            },
            ..row_at(records, selection, position)
        }),
{
}

/// Two states with the same records and the same selection show the same
/// sum, whatever their filters, orders and pages.
pub proof fn law_sum_depends_on_records_and_selection_alone(a: TableStateView, b: TableStateView)
    requires
        a.records == b.records,
        a.selection == b.selection,
    ensures
        shown_sum(a) == shown_sum(b),
{
}

/// The sum depends on the records and the selection alone: typing a search
/// text, turning a page or clicking a column header leaves it as it is,
/// whatever rows are shown afterwards.
pub proof fn law_sum_ignores_filter_order_and_page(state: TableStateView, event: EventView)
    requires
        !(event is Toggle),
    ensures
        shown_sum(state_after(state, event)) == shown_sum(state),
{
}

/// The filter goes through the rows one by one and in order: a row that
/// matches is put behind those kept so far, a row that does not is left out.
pub proof fn law_filter_goes_row_by_row(rows: Seq<RowView>, row: RowView, search: Option<Seq<char>>)
    ensures
        filtered_rows(Seq::<RowView>::empty(), search) == Seq::<RowView>::empty(),
        filtered_rows(rows.push(row), search) == if row_matches(row, search) {
            filtered_rows(rows, search).push(row)
        } else {
            filtered_rows(rows, search)
        },
{
    reveal(Seq::filter);
    rows.lemma_filter_push(row, passes(search));
}

/// The filter keeps exactly the rows that match: each row kept matches and
/// came from the rows given, and each row given that matches is kept.
pub proof fn law_filter_keeps_the_matching_rows(rows: Seq<RowView>, search: Option<Seq<char>>)
    ensures
        filtered_rows(rows, search).len() <= rows.len(),
        forall|row: RowView|
            #[trigger] filtered_rows(rows, search).contains(row) <==> rows.contains(row)
                && row_matches(row, search),
{
    let kept = filtered_rows(rows, search);
    rows.lemma_filter_len(passes(search));
    assert forall|row: RowView| #[trigger] kept.contains(row) <==> rows.contains(row)
        && row_matches(row, search) by {
        if kept.contains(row) {
            let i = choose|i: int| 0 <= i < kept.len() && kept[i] == row;
            rows.lemma_filter_pred(passes(search), i);
            rows.lemma_filter_contains_rev(passes(search), row);
        }
        if rows.contains(row) && row_matches(row, search) {
            let j = choose|j: int| 0 <= j < rows.len() && rows[j] == row;
            rows.lemma_filter_contains(passes(search), j);
        }
    }
}

/// Matching looks at the lowercase forms alone: two names, or two search
/// texts, with the same lowercase form are treated alike.
pub proof fn law_match_ignores_case(
    name: Seq<char>,
    other_name: Seq<char>,
    needle: Seq<char>,
    other_needle: Seq<char>,
)
    requires
        lowercase(name) == lowercase(other_name),
        lowercase(needle) == lowercase(other_needle),
    ensures
        matches_ignoring_case(name, needle) == matches_ignoring_case(other_name, other_needle),
{
}

/// With no search text every row passes the filter.
pub proof fn law_no_search_keeps_every_row(rows: Seq<RowView>)
    ensures
        filtered_rows(rows, None) == rows,
    decreases rows.len(),
{
    reveal(Seq::filter);
    if rows.len() > 0 {
        law_no_search_keeps_every_row(rows.drop_last());
    }
}

/// Clearing the search box is the same as never having searched: the empty
/// text leaves no filter behind, and the rows shown are those of a state
/// without one.
pub proof fn law_cleared_search_is_no_search(state: TableStateView, text: Seq<char>)
    requires
        text.len() == 0,
    ensures
        state_after(state, EventView::Search(text)).view.search == None::<Seq<char>>,
        shown_rows(state_after(state, EventView::Search(text))) == shown_rows(
            TableStateView {
                view: ViewStateView { page: state.view.page, search: None },
                ..state
            },
        ),
{
}

/// A directive that orders nothing leaves the rows as they are.
pub proof fn law_unordered_keeps_the_order(rows: Seq<RowView>, directive: SortDirective)
    requires
        directive.direction == SortDirection::Unordered,
    ensures
        sorted_rows(rows, directive) == rows,
{
}

/// Sorting arranges the rows by the one stable order of their keys: every
/// row stands in the result once, no row stands behind one that its key
/// has to stand before, and rows with equal keys keep the order in which
/// they came.
pub proof fn law_sort_is_stable(rows: Seq<RowView>, directive: SortDirective)
    requires
        directive.direction != SortDirection::Unordered,
    ensures
        ({
            let descending = directive.direction == SortDirection::Descending;
            let keys = sort_keys(rows, directive.column);
            let order = stable_order(keys, descending);
            &&& is_stable_order(keys, descending, order)
            &&& sorted_rows(rows, directive) == arranged(rows, order)
            &&& sorted_rows(rows, directive).len() == rows.len()
            &&& forall|i: int, j: int|
                0 <= i < j < rows.len() ==> !key_before(
                    #[trigger] keys[order[j]],
                    #[trigger] keys[order[i]],
                    descending,
                )
            &&& forall|i: int, j: int|
                0 <= i < j < rows.len() && !key_before(keys[order[i]], keys[order[j]], descending)
                    ==> #[trigger] order[i] < #[trigger] order[j]
        }),
{
    let descending = directive.direction == SortDirection::Descending;
    let keys = sort_keys(rows, directive.column);
    let order = stable_order(keys, descending);
    lemma_stable_order_exists(keys, descending);
    assert forall|i: int, j: int| 0 <= i < j < rows.len() implies !key_before(
        #[trigger] keys[order[j]],
        #[trigger] keys[order[i]],
        descending,
    ) by {
        lemma_value_less_asymmetric(keys[order[i]], keys[order[j]]);
    }
}

/// Sorting neither loses a row nor invents one: the result holds the same
/// rows as the input, each as often.
pub proof fn law_sort_keeps_every_row(rows: Seq<RowView>, directive: SortDirective)
    ensures
        sorted_rows(rows, directive).to_multiset() == rows.to_multiset(),
{
    let keys = sort_keys(rows, directive.column);
    lemma_stable_order_keeps_items(rows, keys, false);
    lemma_stable_order_keeps_items(rows, keys, true);
}

/// Each column compares its own projection of a row: the selection as
/// `false` before `true`, the value by number, the name lexicographically,
/// and the id lexicographically by its decimal text.
pub proof fn law_each_column_has_its_order(a: RowView, b: RowView)
    ensures
        value_less(field_of(a, SortColumn::Select), field_of(b, SortColumn::Select)) == (!a.checked
            && b.checked),
        value_less(field_of(a, SortColumn::Value), field_of(b, SortColumn::Value)) == (a.value
            < b.value),
        value_less(field_of(a, SortColumn::Name), field_of(b, SortColumn::Name)) == lex_less(
            a.name,
            b.name,
        ),
        value_less(field_of(a, SortColumn::Id), field_of(b, SortColumn::Id)) == lex_less(
            decimal_text(a.id),
            decimal_text(b.id),
        ),
{
}

/// Each column is found again by its name: the four names differ.
pub proof fn law_columns_are_found_by_name(column: SortColumn)
    ensures
        column_named(column_name(column)) == Some(column),
{
    reveal_strlit("select");
    reveal_strlit("id");
    reveal_strlit("name");
    reveal_strlit("value");
    assert("select"@.len() == 6);
    assert("id"@.len() == 2);
    assert("name"@.len() == 4);
}

/// Three clicks on the header of one column bring the directive back to
/// where it was, and a column that is clicked is the column that orders.
pub proof fn law_three_clicks_restore_the_directive(directive: SortDirective, column: SortColumn)
    ensures
        clicked(directive, column).column == column,
        directive.column == column ==> clicked(clicked(clicked(directive, column), column), column)
            == directive,
{
}

/// The number of items on a page: a full page while the items last, the
/// rest on the last page, none behind it.
pub open spec fn page_len(len: nat, page: nat, page_size: nat) -> nat {
    if page * page_size >= len {
        0
    } else if (page + 1) * page_size <= len {
        page_size
    } else {
        (len - page * page_size) as nat
    }
}

/// A page holds the items from `page * page_size` on, in order, as many as
/// `page_len` says.
pub proof fn law_page_is_a_slice<T>(items: Seq<T>, page: nat, page_size: nat)
    ensures
        page_of(items, page, page_size).len() == page_len(items.len(), page, page_size),
        forall|i: int|
            0 <= i < page_len(items.len(), page, page_size) ==> #[trigger] page_of(
                items,
                page,
                page_size,
            )[i] == items[page * page_size + i],
{
    assert((page + 1) * page_size == page * page_size + page_size) by (nonlinear_arith);
}

/// With at least one item to a page, every item stands on one page: item
/// `index` is item `index % page_size` of page `index / page_size`.
pub proof fn law_every_item_is_on_its_page<T>(items: Seq<T>, page_size: nat, index: int)
    requires
        page_size > 0,
        0 <= index < items.len(),
    ensures
        index % (page_size as int) < page_of(items, (index / (page_size as int)) as nat, page_size).len(),
        page_of(items, (index / (page_size as int)) as nat, page_size)[index % (page_size as int)]
            == items[index],
{
    let size = page_size as int;
    let page = index / size;
    let offset = index % size;
    assert(index == page * size + offset && 0 <= offset < size && 0 <= page) by (nonlinear_arith)
        requires
            size > 0,
            index >= 0,
            page == index / size,
            offset == index % size,
    ;
    law_page_is_a_slice(items, page as nat, page_size);
}

/// A state that is valid stays valid under every event that the rendered
/// table can give.
pub proof fn law_events_keep_the_state_valid(state: TableStateView, event: EventView)
    requires
        state_is_valid(state),
        event_fits(state, event),
    ensures
        state_is_valid(state_after(state, event)),
{
}

} // verus!
