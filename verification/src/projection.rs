//! The table projection: from the records, the selection, the view state
//! and the sort directive to the rows that are shown. It is computed anew
//! each time, in three steps: filter, order, paginate.

use vstd::prelude::*;
use crate::field::{field_views, FieldValue, FieldView};
use crate::order::{arranged, positions, stable_order, stable_positions};
use crate::record::{record_views, RecordStore, RecordView};
use crate::row::{field_of, row_matches, row_views, RowView, TableLine};
use crate::selection::{is_selected, selected_sum, SelectionSet};
use crate::sort::{SortColumn, SortDirection, SortDirective};
use crate::text::{lowercase, to_lowercase};
use crate::view_state::{search_text, ViewState, ViewStateView};

verus! {

/// The row of the record at `index`.
pub open spec fn row_at(records: Seq<RecordView>, selection: Set<usize>, index: int) -> RowView {
    RowView {
        original_index: index as nat,
        id: records[index].id,
        name: records[index].name,
        value: records[index].value,
        checked: is_selected(selection, index),
    }
}

/// One row for each record, in the order of the store, each with its
/// position and with whether that position is selected.
pub open spec fn all_rows(records: Seq<RecordView>, selection: Set<usize>) -> Seq<RowView> {
    Seq::new(records.len(), |index: int| row_at(records, selection, index))
}

/// The filter as a predicate on rows.
pub open spec fn passes(search: Option<Seq<char>>) -> spec_fn(RowView) -> bool {
    |row: RowView| row_matches(row, search)
}

/// The rows that pass the filter, in the order in which they came.
pub open spec fn filtered_rows(rows: Seq<RowView>, search: Option<Seq<char>>) -> Seq<RowView> {
    rows.filter(passes(search))
}

/// The keys by which `column` orders `rows`, position by position.
pub open spec fn sort_keys(rows: Seq<RowView>, column: SortColumn) -> Seq<FieldView> {
    rows.map_values(|row: RowView| field_of(row, column))
}

/// The rows in the stable order of their keys: ascending or descending by
/// the directive's column, rows with equal keys in the order in which they
/// came; unchanged where the directive orders nothing.
pub open spec fn sorted_rows(rows: Seq<RowView>, directive: SortDirective) -> Seq<RowView> {
    match directive.direction {
        SortDirection::Unordered => rows,
        SortDirection::Ascending => arranged(
            rows,
            stable_order(sort_keys(rows, directive.column), false),
        ),
        SortDirection::Descending => arranged(
            rows,
            stable_order(sort_keys(rows, directive.column), true),
        ),
    }
}

/// Page `page` of `items`, `page_size` to a page: the items from
/// `page * page_size` up to the next page or the end. A page that starts at
/// or behind the end is empty.
pub open spec fn page_of<T>(items: Seq<T>, page: nat, page_size: nat) -> Seq<T> {
    let start = (page * page_size) as int;
    let next = ((page + 1) * page_size) as int;
    if start >= items.len() {
        Seq::empty()
    } else if next <= items.len() {
        items.subrange(start, next)
    } else {
        items.subrange(start, items.len() as int)
    }
}

/// The rows that are shown: all rows, filtered, ordered, paginated.
pub open spec fn visible_rows(
    records: Seq<RecordView>,
    selection: Set<usize>,
    view: ViewStateView,
    directive: SortDirective,
    page_size: nat,
) -> Seq<RowView> {
    page_of(
        sorted_rows(filtered_rows(all_rows(records, selection), view.search), directive),
        view.page,
        page_size,
    )
}

/// One row for each record of the store, in order.
pub fn build_rows(records: &RecordStore, selection: &SelectionSet) -> (rows: Vec<TableLine>)
    ensures
        row_views(rows@) == all_rows(records@, selection@),
{
    let all = records.records();
    let mut rows: Vec<TableLine> = Vec::new();
    let mut index: usize = 0;
    while index < all.len()
        invariant
            record_views(all@) == records@,
            index <= all.len(),
            rows.len() == index,
            forall|i: int| 0 <= i < index ==> (#[trigger] rows[i])@ == row_at(records@, selection@, i),
        decreases all.len() - index,
    {
        let record = &all[index];
        rows.push(
            TableLine {
                original_index: index,
                id: record.id,
                name: record.name.clone(),
                value: record.value,
                checked: selection.contains(index),
            },
        );
        index += 1;
    }
    rows
}

/// The rows of `rows` that pass the filter `search`, in order. The search
/// text is lowercased once, each name once.
pub fn filter_rows(rows: &Vec<TableLine>, search: Option<&str>) -> (kept: Vec<TableLine>)
    ensures
        row_views(kept@) == filtered_rows(row_views(rows@), search_text(search)),
{
    let ghost wanted = search_text(search);
    let lowered: Option<String> = match search {
        Some(text) => Some(to_lowercase(text)),
        None => None,
    };
    let mut kept: Vec<TableLine> = Vec::new();
    let mut index: usize = 0;
    while index < rows.len()
        invariant
            index <= rows.len(),
            wanted == search_text(search),
            match lowered {
                Some(text) => search.is_some() && text@ == lowercase(search.unwrap()@),
                None => search.is_none(),
            },
            row_views(kept@) == filtered_rows(row_views(rows@).take(index as int), wanted),
        decreases rows.len() - index,
    {
        let row = &rows[index];
        let keep = match &lowered {
            Some(text) => row.name_contains(text.as_str()),
            None => true,
        };
        proof {
            let before = row_views(rows@).take(index as int);
            let upto = row_views(rows@).take(index + 1);
            assert(upto =~= before.push(row@));
            before.lemma_filter_push(row@, passes(wanted));
        }
        if keep {
            kept.push(row.clone());
        }
        index += 1;
    }
    assert(row_views(rows@).take(index as int) =~= row_views(rows@));
    kept
}

/// The keys by which `column` orders `rows`.
fn keys_of(rows: &Vec<TableLine>, column: SortColumn) -> (keys: Vec<FieldValue>)
    ensures
        field_views(keys@) == sort_keys(row_views(rows@), column),
{
    let mut keys: Vec<FieldValue> = Vec::new();
    let mut index: usize = 0;
    while index < rows.len()
        invariant
            index <= rows.len(),
            keys.len() == index,
            forall|i: int| 0 <= i < index ==> (#[trigger] keys[i])@ == field_of(rows[i]@, column),
        decreases rows.len() - index,
    {
        keys.push(rows[index].field(column));
        index += 1;
    }
    keys
}

/// The rows of `rows` at the positions that `order` lists, in that order.
fn pick_rows(rows: &Vec<TableLine>, order: &Vec<usize>) -> (picked: Vec<TableLine>)
    requires
        forall|i: int| 0 <= i < order.len() ==> #[trigger] order[i] < rows.len(),
    ensures
        row_views(picked@) == arranged(row_views(rows@), positions(order@)),
{
    let mut picked: Vec<TableLine> = Vec::new();
    let mut index: usize = 0;
    while index < order.len()
        invariant
            forall|i: int| 0 <= i < order.len() ==> #[trigger] order[i] < rows.len(),
            index <= order.len(),
            picked.len() == index,
            forall|i: int| 0 <= i < index ==> (#[trigger] picked[i])@ == rows[order[i] as int]@,
        decreases order.len() - index,
    {
        picked.push(rows[order[index]].clone());
        index += 1;
    }
    picked
}

/// The rows of `rows` from `start` up to `end`.
fn copy_rows(rows: &Vec<TableLine>, start: usize, end: usize) -> (copied: Vec<TableLine>)
    requires
        start <= end <= rows.len(),
    ensures
        row_views(copied@) == row_views(rows@).subrange(start as int, end as int),
{
    let mut copied: Vec<TableLine> = Vec::new();
    let mut index: usize = start;
    while index < end
        invariant
            start <= index <= end <= rows.len(),
            copied.len() == index - start,
            forall|i: int| 0 <= i < index - start ==> (#[trigger] copied[i])@ == rows[start + i]@,
        decreases end - index,
    {
        copied.push(rows[index].clone());
        index += 1;
    }
    copied
}

/// The rows in the stable order that `directive` asks for.
pub fn sort_rows(rows: &Vec<TableLine>, directive: SortDirective) -> (sorted: Vec<TableLine>)
    ensures
        row_views(sorted@) == sorted_rows(row_views(rows@), directive),
{
    let descending = match directive.direction {
        SortDirection::Unordered => {
            return copy_rows(rows, 0, rows.len());
        },
        SortDirection::Ascending => false,
        SortDirection::Descending => true,
    };
    let keys = keys_of(rows, directive.column);
    let order = stable_positions(&keys, descending);
    assert forall|i: int| 0 <= i < order.len() implies #[trigger] order[i] < rows.len() by {
        assert(positions(order@)[i] == order[i]);
    }
    pick_rows(rows, &order)
}

/// Page `page` of `rows`, `page_size` rows to a page.
pub fn paginate(rows: &Vec<TableLine>, page: usize, page_size: usize) -> (shown: Vec<TableLine>)
    ensures
        row_views(shown@) == page_of(row_views(rows@), page as nat, page_size as nat),
{
    assert((page + 1) * page_size == page * page_size + page_size) by (nonlinear_arith);
    let start: usize = match page.checked_mul(page_size) {
        Some(start) => if start < rows.len() {
            start
        } else {
            rows.len()
        },
        None => rows.len(),
    };
    let end: usize = if page_size <= rows.len() - start {
        start + page_size
    } else {
        rows.len()
    };
    copy_rows(rows, start, end)
}

/// What the shell renders: the rows of the current page and the sum over
/// the selection.
#[derive(Debug)]
pub struct ViewModel {
    pub rows: Vec<TableLine>,
    pub sum: i128,
}

/// The projection of the whole state. The rows are filtered, ordered and
/// paginated; the sum is taken over the whole selection and the whole
/// store, whatever the filter, the order and the page.
pub fn project(
    records: &RecordStore,
    selection: &SelectionSet,
    view: &ViewState,
    directive: SortDirective,
    page_size: usize,
) -> (model: ViewModel)
    ensures
        row_views(model.rows@) == visible_rows(
            records@,
            selection@,
            view@,
            directive,
            page_size as nat,
        ),
        model.sum == selected_sum(records@, selection@),
{
    let all = build_rows(records, selection);
    let kept = filter_rows(&all, view.search());
    let sorted = sort_rows(&kept, directive);
    let rows = paginate(&sorted, view.page(), page_size);
    ViewModel { rows, sum: selection.sum(records) }
}

} // verus!
