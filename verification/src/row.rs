//! A row of the table: a record with its position in the store and whether
//! it is selected.

use vstd::prelude::*;
use crate::field::{FieldValue, FieldView};
use crate::sort::{column_named, SortColumn};
use crate::text::{contains_text, decimal_text, is_substring, lowercase, matches_ignoring_case,
    to_decimal_text, to_lowercase};

verus! {

/// A record as the table shows it. `original_index` is the record's
/// position in the store, which is what a click on the row's checkbox
/// toggles.
#[derive(Debug)]
pub struct TableLine {
    pub original_index: usize,
    pub id: i32,
    pub name: String,
    pub value: i64,
    pub checked: bool,
}

/// What a row holds, as plain values.
pub struct RowView {
    pub original_index: nat,
    pub id: int,
    pub name: Seq<char>,
    pub value: int,
    pub checked: bool,
}

impl View for TableLine {
    type V = RowView;

    open spec fn view(&self) -> RowView {
        RowView {
            original_index: self.original_index as nat,
            id: self.id as int,
            name: self.name@,
            value: self.value as int,
            checked: self.checked,
        }
    }
}

/// The views of a sequence of rows, position by position.
pub open spec fn row_views(rows: Seq<TableLine>) -> Seq<RowView> {
    rows.map_values(|row: TableLine| row@)
}

/// The key by which `column` orders a row: the selection as a boolean, the
/// value as a number, the name as text, and the id as its decimal text, so
/// that ids are ordered lexicographically as names are.
pub open spec fn field_of(row: RowView, column: SortColumn) -> FieldView {
    match column {
        SortColumn::Select => FieldView::Bool(row.checked),
        SortColumn::Id => FieldView::Text(decimal_text(row.id)),
        SortColumn::Name => FieldView::Text(row.name),
        SortColumn::Value => FieldView::I64(row.value),
    }
}

/// The value of the field called `name`: that of the column with this name,
/// and `Unit` where there is none.
pub open spec fn named_field(row: RowView, name: Seq<char>) -> FieldView {
    match column_named(name) {
        Some(column) => field_of(row, column),
        None => FieldView::Unit,
    }
}

/// Whether a row passes the filter: with no search text every row does;
/// with one, the rows whose name contains it, case aside.
pub open spec fn row_matches(row: RowView, search: Option<Seq<char>>) -> bool {
    match search {
        Some(needle) => matches_ignoring_case(row.name, needle),
        None => true,
    }
}

/// The characters of an optional search text.
pub open spec fn needle_text(needle: Option<String>) -> Option<Seq<char>> {
    match needle {
        Some(text) => Some(text@),
        None => None,
    }
}

impl Clone for TableLine {
    fn clone(&self) -> (copy: Self)
        ensures
            copy == *self,
    {
        TableLine {
            original_index: self.original_index,
            id: self.id,
            name: self.name.clone(),
            value: self.value,
            checked: self.checked,
        }
    }
}

impl TableLine {
    /// The key by which `column` orders this row.
    pub fn field(&self, column: SortColumn) -> (value: FieldValue)
        ensures
            value@ == field_of(self@, column),
    {
        match column {
            SortColumn::Select => FieldValue::Bool(self.checked),
            SortColumn::Id => FieldValue::Text(to_decimal_text(self.id)),
            SortColumn::Name => FieldValue::Text(self.name.clone()),
            SortColumn::Value => FieldValue::I64(self.value),
        }
    }

    /// The value of the field called `field_name`, which is the key by
    /// which the column of that name is sorted.
    pub fn get_field_as_value(&self, field_name: &str) -> (value: FieldValue)
        ensures
            value@ == named_field(self@, field_name@),
    {
        match SortColumn::from_name(field_name) {
            Some(column) => self.field(column),
            None => FieldValue::Unit,
        }
    }

    /// Whether the row's name contains `lowered_needle` once the name is
    /// lowercased. The needle is taken as it is.
    pub fn name_contains(&self, lowered_needle: &str) -> (found: bool)
        ensures
            found == is_substring(lowered_needle@, lowercase(self@.name)),
    {
        let lowered_name = to_lowercase(self.name.as_str());
        contains_text(lowered_name.as_str(), lowered_needle)
    }

    /// Whether the row passes the filter `needle`.
    pub fn matches_search(&self, needle: Option<String>) -> (matches: bool)
        ensures
            matches == row_matches(self@, needle_text(needle)),
    {
        match needle {
            Some(needle) => {
                let lowered_name = to_lowercase(self.name.as_str());
                let lowered_needle = to_lowercase(needle.as_str());
                contains_text(lowered_name.as_str(), lowered_needle.as_str())
            },
            None => true,
        }
    }
}

} // verus!
