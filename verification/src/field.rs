//! The value of one field of a row, as the key by which a column is sorted.

use vstd::prelude::*;
use crate::text::{lemma_lex_less_asymmetric, lemma_lex_less_total, lemma_lex_less_transitive,
    lex_less, text_less};

verus! {

/// The value of a field. The select column gives a `Bool`, `value` an
/// `I64`, `name` a `Text` and `id` the `Text` of its decimal form; a name
/// that is no column gives `Unit`.
#[derive(Debug)]
pub enum FieldValue {
    Bool(bool),
    I64(i64),
    Text(String),
    Unit,
}

/// What a field value holds, as plain values.
pub enum FieldView {
    Bool(bool),
    I64(int),
    Text(Seq<char>),
    Unit,
}

impl View for FieldValue {
    type V = FieldView;

    open spec fn view(&self) -> FieldView {
        match self {
            FieldValue::Bool(b) => FieldView::Bool(*b),
            FieldValue::I64(n) => FieldView::I64(*n as int),
            FieldValue::Text(s) => FieldView::Text(s@),
            FieldValue::Unit => FieldView::Unit,
        }
    }
}

/// The views of a sequence of field values, position by position.
pub open spec fn field_views(values: Seq<FieldValue>) -> Seq<FieldView> {
    values.map_values(|v: FieldValue| v@)
}

/// The place of a kind of value among the kinds: values of different kinds
/// are ordered by it.
pub open spec fn kind_rank(value: FieldView) -> int {
    match value {
        FieldView::Bool(_) => 0,
        FieldView::I64(_) => 1,
        FieldView::Text(_) => 2,
        FieldView::Unit => 3,
    }
}

/// The strict order of field values. Two values of one kind are ordered as
/// their contents are: `false` before `true`, numbers by size, texts
/// lexicographically. Two values of different kinds are ordered by kind.
pub open spec fn value_less(a: FieldView, b: FieldView) -> bool {
    match (a, b) {
        (FieldView::Bool(x), FieldView::Bool(y)) => !x && y,
        (FieldView::I64(x), FieldView::I64(y)) => x < y,
        (FieldView::Text(x), FieldView::Text(y)) => lex_less(x, y),
        _ => kind_rank(a) < kind_rank(b),
    }
}

/// No value comes before itself, and of two values at most one comes before
/// the other.
pub proof fn lemma_value_less_asymmetric(a: FieldView, b: FieldView)
    ensures
        !(value_less(a, b) && value_less(b, a)),
{
    if let (FieldView::Text(x), FieldView::Text(y)) = (a, b) {
        if lex_less(x, y) {
            lemma_lex_less_asymmetric(x, y);
        }
    }
}

/// The order is transitive.
pub proof fn lemma_value_less_transitive(a: FieldView, b: FieldView, c: FieldView)
    requires
        value_less(a, b),
        value_less(b, c),
    ensures
        value_less(a, c),
{
    if let (FieldView::Text(x), FieldView::Text(y), FieldView::Text(z)) = (a, b, c) {
        lemma_lex_less_transitive(x, y, z);
    }
}

/// Two values of which neither comes before the other are the same value.
pub proof fn lemma_value_less_total(a: FieldView, b: FieldView)
    requires
        !value_less(a, b),
        !value_less(b, a),
    ensures
        a == b,
{
    if let (FieldView::Text(x), FieldView::Text(y)) = (a, b) {
        lemma_lex_less_total(x, y);
    }
}

/// Where `a` does not come before `b`, nor `b` before `c`, `a` does not come
/// before `c`.
pub proof fn lemma_value_less_negatively_transitive(a: FieldView, b: FieldView, c: FieldView)
    requires
        !value_less(a, b),
        !value_less(b, c),
    ensures
        !value_less(a, c),
{
    if value_less(a, c) {
        if value_less(b, a) {
            lemma_value_less_transitive(b, a, c);
        } else {
            lemma_value_less_total(a, b);
        }
    }
}

impl FieldValue {
    /// Whether `self` comes strictly before `other`.
    pub fn less(&self, other: &FieldValue) -> (less: bool)
        ensures
            less == value_less(self@, other@),
    {
        match (self, other) {
            (FieldValue::Bool(x), FieldValue::Bool(y)) => !*x && *y,
            (FieldValue::I64(x), FieldValue::I64(y)) => *x < *y,
            (FieldValue::Text(x), FieldValue::Text(y)) => text_less(x.as_str(), y.as_str()),
            _ => self.rank() < other.rank(),
        }
    }

    /// The place of the value's kind among the kinds.
    fn rank(&self) -> (rank: u8)
        ensures
            rank == kind_rank(self@),
    {
        match self {
            FieldValue::Bool(_) => 0,
            FieldValue::I64(_) => 1,
            FieldValue::Text(_) => 2,
            FieldValue::Unit => 3,
        }
    }
}

} // verus!
