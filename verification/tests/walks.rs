use clips::cursor::collect_walk;
use clips::slots::pair_slots;
use clips::slots::slot_names_from;
use clips::ClipsValue;
use clips::Cursor;
use clips::RawValue;

#[test]
fn walk_with_three_live_elements_yields_three_items() {
    let replies = vec![0x10u64, 0x20, 0x30, 0];
    assert_eq!(collect_walk(&replies), vec![0x10u64, 0x20, 0x30]);
}

#[test]
fn walk_over_empty_list_yields_nothing() {
    let replies = vec![0u64];
    assert_eq!(collect_walk(&replies), Vec::<u64>::new());
}

#[test]
fn walk_stops_at_first_null() {
    let replies = vec![0x10u64, 0, 0x30];
    assert_eq!(collect_walk(&replies), vec![0x10u64]);
}

#[test]
fn exhausted_cursor_stays_exhausted() {
    let mut cursor = Cursor::new();
    assert_eq!(cursor.advance(0x10), Some(0x10));
    assert_eq!(cursor.advance(0), None);
    // Stepping an already-finished cursor yields nothing, whatever the
    // engine would have answered.
    assert_eq!(cursor.advance(0x20), None);
    assert_eq!(cursor.advance(0), None);
}

#[test]
fn slot_names_come_out_in_order() {
    let answer = RawValue::Multifield(vec![
        RawValue::Symbol(String::from("name")),
        RawValue::Symbol(String::from("age")),
        RawValue::Symbol(String::from("colour")),
    ]);
    let names = slot_names_from(&answer).unwrap();
    assert_eq!(names, vec!["name", "age", "colour"]);
}

#[test]
fn requerying_slot_names_yields_identical_lists() {
    let answer = RawValue::Multifield(vec![
        RawValue::Symbol(String::from("a")),
        RawValue::Symbol(String::from("b")),
    ]);
    assert_eq!(slot_names_from(&answer).unwrap(), slot_names_from(&answer).unwrap());
}

#[test]
fn slot_names_refuse_a_non_symbol_element() {
    let answer = RawValue::Multifield(vec![
        RawValue::Symbol(String::from("ok")),
        RawValue::Integer(3),
    ]);
    assert_eq!(slot_names_from(&answer), None);
}

#[test]
fn slot_names_refuse_a_non_multifield_answer() {
    assert_eq!(slot_names_from(&RawValue::Symbol(String::from("alone"))), None);
}

#[test]
fn slots_pair_names_with_decoded_values_in_order() {
    let names = vec![String::from("age"), String::from("colour")];
    let values = vec![RawValue::Integer(3), RawValue::Symbol(String::from("red"))];
    let slots = pair_slots(&names, &values).unwrap();
    assert_eq!(slots.len(), 2);
    assert_eq!(slots[0].name, "age");
    assert_eq!(slots[0].value, ClipsValue::Integer(3));
    assert_eq!(slots[1].name, "colour");
    assert_eq!(slots[1].value, ClipsValue::Symbol(String::from("red")));
}

#[test]
fn slots_refuse_an_undecodable_value() {
    let names = vec![String::from("age")];
    let values = vec![RawValue::Unknown(30)];
    assert_eq!(pair_slots(&names, &values), None);
}
