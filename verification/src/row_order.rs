//! Equality and order of rows.

use std::cmp::Ordering;
use vstd::prelude::*;
use crate::row::TableLine;
use crate::text::{lex_less, text_less};

verus! {

/// Two rows are equal where name, value and selection agree; the position
/// and the id take no part.
impl PartialEq for TableLine {
    fn eq(&self, other: &Self) -> (equal: bool) {
        self.name == other.name && self.value == other.value && self.checked == other.checked
    }
}

impl vstd::std_specs::cmp::PartialEqSpecImpl for TableLine {
    open spec fn obeys_eq_spec() -> bool {
        true
    }

    open spec fn eq_spec(&self, other: &Self) -> bool {
        self@.name == other@.name && self@.value == other@.value && self@.checked == other@.checked
    }
}

/// Rows are ordered by name alone, lexicographically.
impl PartialOrd for TableLine {
    fn partial_cmp(&self, other: &Self) -> (order: Option<Ordering>) {
        if text_less(self.name.as_str(), other.name.as_str()) {
            Some(Ordering::Less)
        } else if text_less(other.name.as_str(), self.name.as_str()) {
            Some(Ordering::Greater)
        } else {
            Some(Ordering::Equal)
        }
    }
}

impl vstd::std_specs::cmp::PartialOrdSpecImpl for TableLine {
    open spec fn obeys_partial_cmp_spec() -> bool {
        true
    }

    open spec fn partial_cmp_spec(&self, other: &Self) -> Option<Ordering> {
        if lex_less(self@.name, other@.name) {
            Some(Ordering::Less)
        } else if lex_less(other@.name, self@.name) {
            Some(Ordering::Greater)
        } else {
            Some(Ordering::Equal)
        }
    }
}

} // verus!
