use std::collections::HashMap;
use tsgo_client::cbor::Item;
use tsgo_client::decode::{
    as_record, decode_index, decode_list, find_field, find_required, read_field, reserve_for,
    vecmap, vecmap_or_empty, FromItem, Kind, ShapeError, RESERVE_LIMIT,
};
use tsgo_client::proto::{Location, NodeReference, Signature, TypeData};

fn text(s: &str) -> Item {
    Item::Text(s.to_string())
}

fn num(i: i128) -> Item {
    Item::Integer(i)
}

fn record(fields: Vec<(&str, Item)>) -> Item {
    Item::Dict(fields.into_iter().map(|(k, v)| (text(k), v)).collect())
}

fn node(file: i128, start: i128, end: i128) -> Item {
    record(vec![("sourcefile_id", num(file)), ("start", num(start)), ("end", num(end))])
}

#[test]
fn reserve_follows_the_hint_up_to_the_limit() {
    assert_eq!(RESERVE_LIMIT, 4096);
    assert_eq!(reserve_for(0), 0);
    assert_eq!(reserve_for(1), 1);
    assert_eq!(reserve_for(4095), 4095);
    assert_eq!(reserve_for(4096), 4096);
    assert_eq!(reserve_for(4097), 4096);
    assert_eq!(reserve_for(usize::MAX), 4096);
}

#[test]
fn unsigned_is_read_within_its_range() {
    assert_eq!(u32::from_item(&num(0)), Ok(0));
    assert_eq!(u32::from_item(&num(4294967295)), Ok(4294967295));
    assert_eq!(u32::from_item(&num(4294967296)), Err(ShapeError::Mismatch(Kind::Unsigned32)));
    assert_eq!(u32::from_item(&num(-1)), Err(ShapeError::Mismatch(Kind::Unsigned32)));
    assert_eq!(u32::from_item(&text("1")), Err(ShapeError::Mismatch(Kind::Unsigned32)));
    assert_eq!(u32::from_item(&Item::Float(0)), Err(ShapeError::Mismatch(Kind::Unsigned32)));
}

#[test]
fn scalars_are_read_from_their_own_kind_only() {
    assert_eq!(bool::from_item(&Item::Bool(true)), Ok(true));
    assert_eq!(bool::from_item(&num(1)), Err(ShapeError::Mismatch(Kind::Bool)));
    assert_eq!(String::from_item(&text("a b")), Ok("a b".to_string()));
    assert_eq!(
        String::from_item(&Item::Bytes(vec![b'a'])),
        Err(ShapeError::Mismatch(Kind::Text))
    );
    assert_eq!(<Vec<u8>>::from_item(&Item::Bytes(vec![0xff, 0])), Ok(vec![0xff, 0]));
    assert_eq!(<Vec<u8>>::from_item(&text("a")), Err(ShapeError::Mismatch(Kind::Bytes)));
    assert_eq!(
        <Vec<u8>>::from_item(&Item::Array(vec![num(1)])),
        Err(ShapeError::Mismatch(Kind::Bytes))
    );
}

#[test]
fn table_keeps_entries_in_order_for_each_length() {
    for n in [0u32, 1, 2, 7, 100, 5000] {
        let entries: Vec<(Item, Item)> =
            (0..n).map(|i| (num((n - i) as i128), num((i * 3) as i128))).collect();
        let table: Vec<(u32, u32)> = vecmap(&Item::Dict(entries)).unwrap();
        let expected: Vec<(u32, u32)> = (0..n).map(|i| (n - i, i * 3)).collect();
        assert_eq!(table, expected);
    }
}

#[test]
fn table_keeps_repeated_keys() {
    let item = Item::Dict(vec![
        (num(5), num(1)),
        (num(3), num(2)),
        (num(5), num(3)),
        (num(5), num(1)),
    ]);
    let table: Vec<(u32, u32)> = vecmap(&item).unwrap();
    assert_eq!(table, vec![(5, 1), (3, 2), (5, 3), (5, 1)]);
}

#[test]
fn table_takes_records_as_keys() {
    let item = Item::Dict(vec![(node(1, 2, 3), num(9)), (node(0, 0, 0), num(8))]);
    let table: Vec<(NodeReference, u32)> = vecmap(&item).unwrap();
    assert_eq!(
        table,
        vec![
            (NodeReference { sourcefile_id: 1, start: 2, end: 3 }, 9),
            (NodeReference { sourcefile_id: 0, start: 0, end: 0 }, 8),
        ]
    );
}

#[test]
fn table_is_empty_for_the_empty_marker() {
    let table: Vec<(u32, u32)> = vecmap(&Item::Null).unwrap();
    assert_eq!(table, vec![]);
    let table: Vec<(u32, u32)> = vecmap(&Item::Dict(vec![])).unwrap();
    assert_eq!(table, vec![]);
}

#[test]
fn table_refuses_other_kinds() {
    let r: Result<Vec<(u32, u32)>, ShapeError> = vecmap(&Item::Array(vec![]));
    assert_eq!(r, Err(ShapeError::Mismatch(Kind::Table)));
    let r: Result<Vec<(u32, u32)>, ShapeError> = vecmap(&num(0));
    assert_eq!(r, Err(ShapeError::Mismatch(Kind::Table)));
    let r: Result<Vec<(u32, u32)>, ShapeError> = vecmap(&text(""));
    assert_eq!(r, Err(ShapeError::Mismatch(Kind::Table)));
}

#[test]
fn table_fails_with_the_first_entry_that_does_not_decode() {
    let item = Item::Dict(vec![
        (num(1), num(1)),
        (num(2), Item::Bool(true)),
        (text("x"), num(3)),
    ]);
    let r: Result<Vec<(u32, u32)>, ShapeError> = vecmap(&item);
    assert_eq!(r, Err(ShapeError::Mismatch(Kind::Unsigned32)));
    let item = Item::Dict(vec![(num(1), text("x")), (num(2), num(1))]);
    let r: Result<Vec<(u32, String)>, ShapeError> = vecmap(&item);
    assert_eq!(r, Err(ShapeError::Mismatch(Kind::Text)));
    let item = Item::Dict(vec![(Item::Bool(false), text("x"))]);
    let r: Result<Vec<(bool, u32)>, ShapeError> = vecmap(&item);
    assert_eq!(r, Err(ShapeError::Mismatch(Kind::Unsigned32)));
    let item = Item::Dict(vec![(num(0), text("x"))]);
    let r: Result<Vec<(bool, u32)>, ShapeError> = vecmap(&item);
    assert_eq!(r, Err(ShapeError::Mismatch(Kind::Bool)));
}

#[test]
fn optional_table_is_empty_when_left_out() {
    let table: Vec<(u32, u32)> = vecmap_or_empty(None).unwrap();
    assert_eq!(table, vec![]);
    let table: Vec<(u32, u32)> = vecmap_or_empty(Some(&Item::Dict(vec![]))).unwrap();
    assert_eq!(table, vec![]);
    let table: Vec<(u32, u32)> = vecmap_or_empty(Some(&Item::Null)).unwrap();
    assert_eq!(table, vec![]);
}

#[test]
fn optional_table_decodes_what_is_there() {
    let item = Item::Dict(vec![(num(2), num(20)), (num(1), num(10))]);
    let table: Vec<(u32, u32)> = vecmap_or_empty(Some(&item)).unwrap();
    assert_eq!(table, vec![(2, 20), (1, 10)]);
    let r: Result<Vec<(u32, u32)>, ShapeError> = vecmap_or_empty(Some(&Item::Array(vec![])));
    assert_eq!(r, Err(ShapeError::Mismatch(Kind::Table)));
    let r: Result<Vec<(u32, u32)>, ShapeError> = vecmap_or_empty(Some(&num(4)));
    assert_eq!(r, Err(ShapeError::Mismatch(Kind::Table)));
}

#[test]
fn list_keeps_elements_in_order() {
    let item = Item::Array(vec![text("b"), text("a"), text("b")]);
    let list: Vec<String> = decode_list(&item).unwrap();
    assert_eq!(list, vec!["b".to_string(), "a".to_string(), "b".to_string()]);
    let list: Vec<String> = decode_list(&Item::Array(vec![])).unwrap();
    assert_eq!(list, Vec::<String>::new());
}

#[test]
fn list_refuses_other_kinds_and_bad_elements() {
    let r: Result<Vec<u32>, ShapeError> = decode_list(&Item::Dict(vec![]));
    assert_eq!(r, Err(ShapeError::Mismatch(Kind::Array)));
    let r: Result<Vec<u32>, ShapeError> = decode_list(&Item::Null);
    assert_eq!(r, Err(ShapeError::Mismatch(Kind::Array)));
    let r: Result<Vec<u32>, ShapeError> = decode_list(&Item::Array(vec![num(1), text("2")]));
    assert_eq!(r, Err(ShapeError::Mismatch(Kind::Unsigned32)));
    let r: Result<Vec<Signature>, ShapeError> =
        decode_list(&Item::Array(vec![record(vec![("result", num(1))]), record(vec![])]));
    assert_eq!(r, Err(ShapeError::MissingField("result")));
}

#[test]
fn index_keeps_the_last_value_of_a_key() {
    let item = Item::Dict(vec![
        (num(7), Item::Bytes(vec![1])),
        (num(8), Item::Bytes(vec![2])),
        (num(7), Item::Bytes(vec![3])),
    ]);
    let index: HashMap<u32, Vec<u8>> = decode_index(&item).unwrap();
    let mut expected = HashMap::new();
    expected.insert(7u32, vec![3u8]);
    expected.insert(8u32, vec![2u8]);
    assert_eq!(index, expected);
    let index: HashMap<u32, Vec<u8>> = decode_index(&Item::Dict(vec![])).unwrap();
    assert!(index.is_empty());
}

#[test]
fn index_refuses_what_is_no_map() {
    let r: Result<HashMap<u32, Vec<u8>>, ShapeError> = decode_index(&Item::Null);
    assert_eq!(r, Err(ShapeError::Mismatch(Kind::Table)));
    let r: Result<HashMap<u32, Vec<u8>>, ShapeError> = decode_index(&Item::Array(vec![]));
    assert_eq!(r, Err(ShapeError::Mismatch(Kind::Table)));
    let r: Result<HashMap<u32, Vec<u8>>, ShapeError> =
        decode_index(&Item::Dict(vec![(text("7"), Item::Bytes(vec![]))]));
    assert_eq!(r, Err(ShapeError::Mismatch(Kind::Unsigned32)));
    let r: Result<HashMap<u32, Vec<u8>>, ShapeError> =
        decode_index(&Item::Dict(vec![(num(7), text("name"))]));
    assert_eq!(r, Err(ShapeError::Mismatch(Kind::Bytes)));
}

#[test]
fn field_is_found_by_its_name() {
    let entries = vec![
        (text("start"), num(1)),
        (text("end"), num(2)),
        (text("ends"), num(3)),
        (text("en"), num(4)),
        (text("END"), num(5)),
    ];
    assert_eq!(find_field(&entries, "end"), Ok(Some(&num(2))));
    assert_eq!(find_field(&entries, "start"), Ok(Some(&num(1))));
    assert_eq!(find_field(&entries, "END"), Ok(Some(&num(5))));
    assert_eq!(find_field(&entries, "e"), Ok(None));
    assert_eq!(find_field(&entries, ""), Ok(None));
    assert_eq!(find_required(&entries, "en"), Ok(&num(4)));
    assert_eq!(find_required(&entries, "middle"), Err(ShapeError::MissingField("middle")));
    assert_eq!(read_field::<u32>(&entries, "ends"), Ok(3));
    assert_eq!(read_field::<bool>(&entries, "ends"), Err(ShapeError::Mismatch(Kind::Bool)));
    assert_eq!(read_field::<u32>(&entries, "none"), Err(ShapeError::MissingField("none")));
}

#[test]
fn field_that_occurs_twice_is_refused() {
    let entries = vec![(text("start"), num(1)), (text("end"), num(2)), (text("start"), num(1))];
    assert_eq!(find_field(&entries, "start"), Err(ShapeError::DuplicateField("start")));
    assert_eq!(find_required(&entries, "start"), Err(ShapeError::DuplicateField("start")));
    assert_eq!(find_field(&entries, "end"), Ok(Some(&num(2))));
    let item = Item::Dict(entries);
    assert_eq!(Location::from_item(&item), Err(ShapeError::DuplicateField("start")));
}

#[test]
fn field_is_not_found_under_a_key_that_is_no_text() {
    let entries = vec![(Item::Bytes(b"start".to_vec()), num(1)), (num(0), num(2))];
    assert_eq!(find_field(&entries, "start"), Ok(None));
}

#[test]
fn record_is_a_map_with_text_keys() {
    let item = record(vec![("a", num(1))]);
    assert_eq!(as_record(&item).map(|e| e.len()), Ok(1));
    assert_eq!(as_record(&Item::Dict(vec![])).map(|e| e.len()), Ok(0));
    let item = Item::Dict(vec![(text("a"), num(1)), (num(2), num(2))]);
    assert_eq!(as_record(&item).map(|e| e.len()), Err(ShapeError::KeyNotText));
    assert_eq!(as_record(&Item::Null).map(|e| e.len()), Err(ShapeError::Mismatch(Kind::Record)));
    assert_eq!(
        as_record(&Item::Array(vec![])).map(|e| e.len()),
        Err(ShapeError::Mismatch(Kind::Record))
    );
}

#[test]
fn record_passes_over_keys_that_name_no_field() {
    let item = record(vec![("flags", num(4)), ("more", Item::Null), ("id", num(9))]);
    assert_eq!(TypeData::from_item(&item), Ok(TypeData { id: 9, flags: 4 }));
}

#[test]
fn record_fails_on_its_first_field_in_declared_order() {
    let item = record(vec![("end", text("x"))]);
    assert_eq!(Location::from_item(&item), Err(ShapeError::MissingField("start")));
    let item = record(vec![("end", text("x")), ("start", num(1))]);
    assert_eq!(Location::from_item(&item), Err(ShapeError::Mismatch(Kind::Unsigned32)));
    let item = Item::Dict(vec![(num(1), num(1))]);
    assert_eq!(Location::from_item(&item), Err(ShapeError::KeyNotText));
    assert_eq!(Location::from_item(&num(1)), Err(ShapeError::Mismatch(Kind::Record)));
}
