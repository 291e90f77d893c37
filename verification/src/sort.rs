//! The sort directive: which column orders the rows, and in which direction.

use vstd::prelude::*;
use crate::text::same_text;

verus! {

/// A column of the table. `Select` is the checkbox column.
#[derive(Clone, Copy, PartialEq, Eq, Debug, Structural)]
pub enum SortColumn {
    Select,
    Id,
    Name,
    Value,
}

/// The direction of a sort. `Unordered` leaves the rows as they are.
#[derive(Clone, Copy, PartialEq, Eq, Debug, Structural)]
pub enum SortDirection {
    Unordered,
    Ascending,
    Descending,
}

/// The active column and direction. It lives for the session only.
#[derive(Clone, Copy, PartialEq, Eq, Debug, Structural)]
pub struct SortDirective {
    pub column: SortColumn,
    pub direction: SortDirection,
}

/// The name under which a column is known to the table.
pub open spec fn column_name(column: SortColumn) -> Seq<char> {
    match column {
        SortColumn::Select => "select"@,
        SortColumn::Id => "id"@,
        SortColumn::Name => "name"@,
        SortColumn::Value => "value"@,
    }
}

/// The column that a name stands for, if it is the name of one.
pub open spec fn column_named(name: Seq<char>) -> Option<SortColumn> {
    if name == "id"@ {
        Some(SortColumn::Id)
    } else if name == "name"@ {
        Some(SortColumn::Name)
    } else if name == "value"@ {
        Some(SortColumn::Value)
    } else if name == "select"@ {
        Some(SortColumn::Select)
    } else {
        None
    }
}

/// The direction that follows `direction` when a column header is clicked:
/// unordered, then ascending, then descending, then unordered again.
pub open spec fn rotated(direction: SortDirection) -> SortDirection {
    match direction {
        SortDirection::Unordered => SortDirection::Ascending,
        SortDirection::Ascending => SortDirection::Descending,
        SortDirection::Descending => SortDirection::Unordered,
    }
}

/// The directive after a click on the header of `column`: the column's own
/// direction rotates; a click on another column starts it at ascending and
/// drops the order of the column before.
pub open spec fn clicked(directive: SortDirective, column: SortColumn) -> SortDirective {
    if directive.column == column {
        SortDirective { column, direction: rotated(directive.direction) }
    } else {
        SortDirective { column, direction: SortDirection::Ascending }
    }
}

impl SortColumn {
    /// The column's name.
    pub fn name(&self) -> (name: &'static str)
        ensures
            name@ == column_name(*self),
    {
        match self {
            SortColumn::Select => "select",
            SortColumn::Id => "id",
            SortColumn::Name => "name",
            SortColumn::Value => "value",
        }
    }

    /// The column called `name`; `None` where no column has that name.
    pub fn from_name(name: &str) -> (column: Option<SortColumn>)
        ensures
            column == column_named(name@),
    {
        if same_text(name, "id") {
            Some(SortColumn::Id)
        } else if same_text(name, "name") {
            Some(SortColumn::Name)
        } else if same_text(name, "value") {
            Some(SortColumn::Value)
        } else if same_text(name, "select") {
            Some(SortColumn::Select)
        } else {
            None
        }
    }
}

impl SortDirection {
    /// The next direction in the cycle of a header click.
    pub fn rotate(self) -> (next: SortDirection)
        ensures
            next == rotated(self),
    {
        match self {
            SortDirection::Unordered => SortDirection::Ascending,
            SortDirection::Ascending => SortDirection::Descending,
            SortDirection::Descending => SortDirection::Unordered,
        }
    }
}

impl SortDirective {
    /// No column orders the rows.
    pub fn unordered() -> (directive: SortDirective)
        ensures
            directive == (SortDirective {
                column: SortColumn::Select,
                direction: SortDirection::Unordered,
            }),
    {
        SortDirective { column: SortColumn::Select, direction: SortDirection::Unordered }
    }

    /// The directive after a click on the header of `column`.
    pub fn click(self, column: SortColumn) -> (next: SortDirective)
        ensures
            next == clicked(self, column),
    {
        if self.column == column {
            SortDirective { column, direction: self.direction.rotate() }
        } else {
            SortDirective { column, direction: SortDirection::Ascending }
        }
    }
}

} // verus!
