use data_table::{Record, RecordStore, SelectionSet};
use std::collections::HashSet;

fn store(values: &[i64]) -> RecordStore {
    let mut records = Vec::new();
    for (position, value) in values.iter().enumerate() {
        records.push(Record::new(position as i32 + 1, format!("record {position}"), *value));
    }
    RecordStore::new(records)
}

#[test]
fn new_selection_is_empty() {
    let selection = SelectionSet::new();
    for index in 0..10 {
        assert!(!selection.contains(index));
    }
    assert!(selection.into_indices().is_empty());
}

#[test]
fn toggle_inserts_an_absent_index() {
    let mut selection = SelectionSet::new();
    selection.toggle(4);
    assert!(selection.contains(4));
    assert!(!selection.contains(3));
}

#[test]
fn toggle_removes_a_present_index() {
    let mut selection = SelectionSet::from_indices(HashSet::from([1, 4]));
    selection.toggle(4);
    assert!(!selection.contains(4));
    assert!(selection.contains(1));
}

#[test]
fn toggle_twice_restores_the_selection() {
    let before = HashSet::from([0, 2, 7]);
    for index in [0usize, 1, 2, 7, 8, usize::MAX] {
        let mut selection = SelectionSet::from_indices(before.clone());
        let was_member = selection.contains(index);
        selection.toggle(index);
        assert_eq!(selection.contains(index), !was_member);
        selection.toggle(index);
        assert_eq!(selection.into_indices(), before);
    }
}

#[test]
fn toggle_accepts_an_index_outside_the_store() {
    let records = store(&[10, 20]);
    let mut selection = SelectionSet::new();
    selection.toggle(5);
    assert!(selection.contains(5));
    assert_eq!(selection.sum(&records), 0);
}

#[test]
fn sum_of_nothing_is_zero() {
    assert_eq!(SelectionSet::new().sum(&store(&[10, 20, 30])), 0);
    assert_eq!(SelectionSet::new().sum(&store(&[])), 0);
}

#[test]
fn sum_adds_the_selected_values_only() {
    let records = store(&[10, 20, 30, 50, -7]);
    let mut selection = SelectionSet::new();
    selection.toggle(3);
    assert_eq!(selection.sum(&records), 50);
    selection.toggle(0);
    assert_eq!(selection.sum(&records), 60);
    selection.toggle(4);
    assert_eq!(selection.sum(&records), 53);
    selection.toggle(3);
    assert_eq!(selection.sum(&records), 3);
}

#[test]
fn sum_skips_members_that_are_no_position() {
    let records = store(&[10, 20, 30]);
    let selection = SelectionSet::from_indices(HashSet::from([1, 3, 100]));
    assert_eq!(selection.sum(&records), 20);
}

#[test]
fn sum_is_exact_beyond_the_range_of_a_value() {
    let records = store(&[i64::MAX, i64::MAX, i64::MIN, i64::MIN, i64::MIN]);
    let mut selection = SelectionSet::from_indices(HashSet::from([0, 1]));
    assert_eq!(selection.sum(&records), 2 * (i64::MAX as i128));
    selection.toggle(0);
    selection.toggle(1);
    selection.toggle(2);
    selection.toggle(3);
    selection.toggle(4);
    assert_eq!(selection.sum(&records), 3 * (i64::MIN as i128));
}

#[test]
fn sum_is_taken_anew_after_each_change() {
    let records = store(&[1, 2, 4, 8]);
    let mut selection = SelectionSet::new();
    let mut expected = 0i128;
    for index in [0usize, 1, 2, 3, 1, 0] {
        let gain = [1i128, 2, 4, 8][index];
        if selection.contains(index) {
            expected -= gain;
        } else {
            expected += gain;
        }
        selection.toggle(index);
        assert_eq!(selection.sum(&records), expected);
    }
}

#[test]
fn store_is_read_by_position() {
    let records = store(&[10, 20, 30]);
    assert_eq!(records.len(), 3);
    assert!(!records.is_empty());
    assert_eq!(records.get(1).map(|r| (r.id, r.name.as_str(), r.value)), Some((2, "record 1", 20)));
    assert!(records.get(3).is_none());
    assert_eq!(records.records().len(), 3);
    assert!(store(&[]).is_empty());
    let copy = records.clone();
    assert_eq!(copy.len(), 3);
    assert_eq!(copy.get(2).map(|r| r.value), Some(30));
}
