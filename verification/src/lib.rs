//! A searchable, sortable, paginated table with per-row selection and a
//! running sum of the selected values.
//!
//! The records are fixed for a session. Four pieces of state change with the
//! user's events: the selection, the page, the search text and the sort
//! directive. What is shown is derived from them anew each time: the rows are
//! filtered, ordered and paginated, and the sum is taken over the whole
//! selection, whatever the filter hides.

pub mod field;
pub mod laws;
pub mod order;
pub mod projection;
pub mod record;
pub mod row;
pub mod row_order;
pub mod selection;
pub mod shell;
pub mod sort;
pub mod text;
pub mod view_state;

pub use crate::field::FieldValue;
pub use crate::projection::{build_rows, filter_rows, paginate, project, sort_rows, ViewModel};
pub use crate::record::{Record, RecordStore};
pub use crate::row::TableLine;
pub use crate::selection::SelectionSet;
pub use crate::shell::{Event, TableState};
pub use crate::sort::{SortColumn, SortDirection, SortDirective};
pub use crate::view_state::ViewState;
