use data_table::{FieldValue, SortColumn, SortDirection, SortDirective, TableLine};
use std::cmp::Ordering;

fn line(name: &str, id: i32, value: i64, checked: bool) -> TableLine {
    TableLine { original_index: 9, id, name: name.to_string(), value, checked }
}

fn outside(value: &FieldValue) -> serde_value::Value {
    match value {
        FieldValue::Bool(b) => serde_value::Value::Bool(*b),
        FieldValue::I64(n) => serde_value::Value::I64(*n),
        FieldValue::Text(s) => serde_value::Value::String(s.clone()),
        FieldValue::Unit => serde_value::Value::Unit,
    }
}

#[test]
fn each_field_has_the_kind_of_its_column() {
    let row = line("Apple", 7, 1234567890123, true);
    assert!(matches!(row.get_field_as_value("value"), FieldValue::I64(1234567890123)));
    assert!(matches!(row.get_field_as_value("select"), FieldValue::Bool(true)));
    match row.get_field_as_value("name") {
        FieldValue::Text(name) => assert_eq!(name, "Apple"),
        other => panic!("the name is a text, not {other:?}"),
    }
    match row.get_field_as_value("id") {
        FieldValue::Text(id) => assert_eq!(id, "7"),
        other => panic!("the id is a text, not {other:?}"),
    }
}

#[test]
fn the_key_of_an_id_is_its_decimal_text() {
    for id in [0, 1, 9, 10, 11, 99, 100, 101, 2024, -1, -10, -305, i32::MAX, i32::MIN, i32::MIN + 1] {
        let row = line("Apple", id, 0, false);
        match row.field(SortColumn::Id) {
            FieldValue::Text(text) => assert_eq!(text, id.to_string()),
            other => panic!("the id is a text, not {other:?}"),
        }
        assert_eq!(data_table::text::to_decimal_text(id), id.to_string());
    }
}

#[test]
fn ids_are_ordered_as_texts_not_as_numbers() {
    let key = |id: i32| line("Apple", id, 0, false).get_field_as_value("id");
    assert!(key(10).less(&key(2)));
    assert!(!key(2).less(&key(10)));
    assert!(key(10).less(&key(100)));
    assert!(key(100).less(&key(11)));
    assert!(key(-3).less(&key(0)));
    assert!(key(-10).less(&key(-2)));
    assert!(!key(7).less(&key(7)));
}

#[test]
fn a_name_that_is_no_column_gives_unit() {
    let row = line("Apple", 7, 10, false);
    for name in ["", "Id", "ID", "names", "original_index", "checked", "sum", " id"] {
        assert!(matches!(row.get_field_as_value(name), FieldValue::Unit), "{name:?}");
    }
}

#[test]
fn field_by_column_and_field_by_name_agree() {
    let row = line("Apple", -3, -10, false);
    for column in [SortColumn::Select, SortColumn::Id, SortColumn::Name, SortColumn::Value] {
        let by_column = outside(&row.field(column));
        let by_name = outside(&row.get_field_as_value(column.name()));
        assert_eq!(by_column, by_name);
    }
}

#[test]
fn columns_are_found_by_their_names() {
    assert_eq!(SortColumn::from_name("select"), Some(SortColumn::Select));
    assert_eq!(SortColumn::from_name("id"), Some(SortColumn::Id));
    assert_eq!(SortColumn::from_name("name"), Some(SortColumn::Name));
    assert_eq!(SortColumn::from_name("value"), Some(SortColumn::Value));
    assert_eq!(SortColumn::from_name("Value"), None);
    assert_eq!(SortColumn::from_name(""), None);
    assert_eq!(SortColumn::Select.name(), "select");
    assert_eq!(SortColumn::Id.name(), "id");
    assert_eq!(SortColumn::Name.name(), "name");
    assert_eq!(SortColumn::Value.name(), "value");
}

#[test]
fn values_of_one_kind_are_ordered_by_content() {
    assert!(FieldValue::Bool(false).less(&FieldValue::Bool(true)));
    assert!(!FieldValue::Bool(true).less(&FieldValue::Bool(false)));
    assert!(!FieldValue::Bool(true).less(&FieldValue::Bool(true)));
    assert!(FieldValue::I64(9).less(&FieldValue::I64(10)));
    assert!(FieldValue::I64(-10).less(&FieldValue::I64(9)));
    assert!(!FieldValue::I64(10).less(&FieldValue::I64(10)));
    assert!(FieldValue::I64(i64::MIN).less(&FieldValue::I64(i64::MAX)));
    assert!(!FieldValue::I64(30).less(&FieldValue::I64(10)));
    assert!(FieldValue::Text("Apple".to_string()).less(&FieldValue::Text("Banana".to_string())));
    assert!(!FieldValue::Text("b".to_string()).less(&FieldValue::Text("B".to_string())));
    assert!(!FieldValue::Unit.less(&FieldValue::Unit));
}

#[test]
fn the_order_of_field_values_is_that_of_serde_value() {
    let samples = [
        FieldValue::Bool(false),
        FieldValue::Bool(true),
        FieldValue::I64(-1),
        FieldValue::I64(0),
        FieldValue::I64(9),
        FieldValue::Text("10".to_string()),
        FieldValue::Text("9".to_string()),
        FieldValue::Text("-3".to_string()),
        FieldValue::I64(i64::MIN),
        FieldValue::I64(10),
        FieldValue::I64(30),
        FieldValue::I64(i64::MAX),
        FieldValue::Text(String::new()),
        FieldValue::Text("Apple".to_string()),
        FieldValue::Text("apple".to_string()),
        FieldValue::Text("apples".to_string()),
        FieldValue::Text("Éclair".to_string()),
        FieldValue::Unit,
    ];
    for a in &samples {
        for b in &samples {
            let expected = outside(a).cmp(&outside(b)) == Ordering::Less;
            assert_eq!(a.less(b), expected, "{a:?} against {b:?}");
        }
    }
}

#[test]
fn rows_are_equal_by_name_value_and_selection() {
    let row = line("Apple", 1, 10, false);
    assert!(row == line("Apple", 2, 10, false));
    assert!(row != line("apple", 1, 10, false));
    assert!(row != line("Apple", 1, 11, false));
    assert!(row != line("Apple", 1, 10, true));
    let mut moved = line("Apple", 1, 10, false);
    moved.original_index = 0;
    assert!(row == moved);
}

#[test]
fn rows_are_ordered_by_name_alone() {
    let apple = line("Apple", 5, 50, true);
    let banana = line("Banana", 1, 10, false);
    assert_eq!(apple.partial_cmp(&banana), Some(Ordering::Less));
    assert_eq!(banana.partial_cmp(&apple), Some(Ordering::Greater));
    assert_eq!(apple.partial_cmp(&line("Apple", 9, 90, false)), Some(Ordering::Equal));
    assert!(apple < banana);
    assert!(banana >= apple);
}

#[test]
fn a_copy_of_a_row_holds_the_same_fields() {
    let row = line("Apple", 5, 50, true);
    let copy = row.clone();
    assert_eq!(
        (copy.original_index, copy.id, copy.name.as_str(), copy.value, copy.checked),
        (9, 5, "Apple", 50, true)
    );
}

#[test]
fn a_click_rotates_the_direction_of_its_column() {
    let start = SortDirective::unordered();
    assert_eq!(start.direction, SortDirection::Unordered);
    let once = start.click(SortColumn::Value);
    assert_eq!(once, SortDirective { column: SortColumn::Value, direction: SortDirection::Ascending });
    let twice = once.click(SortColumn::Value);
    assert_eq!(twice, SortDirective { column: SortColumn::Value, direction: SortDirection::Descending });
    let thrice = twice.click(SortColumn::Value);
    assert_eq!(thrice, SortDirective { column: SortColumn::Value, direction: SortDirection::Unordered });
    let again = thrice.click(SortColumn::Value);
    assert_eq!(again.direction, SortDirection::Ascending);
}

#[test]
fn a_click_on_another_column_starts_it_ascending() {
    let by_value = SortDirective { column: SortColumn::Value, direction: SortDirection::Descending };
    assert_eq!(
        by_value.click(SortColumn::Name),
        SortDirective { column: SortColumn::Name, direction: SortDirection::Ascending }
    );
    let unordered = SortDirective { column: SortColumn::Value, direction: SortDirection::Unordered };
    assert_eq!(
        unordered.click(SortColumn::Id),
        SortDirective { column: SortColumn::Id, direction: SortDirection::Ascending }
    );
}

#[test]
fn directions_rotate_in_a_cycle_of_three() {
    assert_eq!(SortDirection::Unordered.rotate(), SortDirection::Ascending);
    assert_eq!(SortDirection::Ascending.rotate(), SortDirection::Descending);
    assert_eq!(SortDirection::Descending.rotate(), SortDirection::Unordered);
}
