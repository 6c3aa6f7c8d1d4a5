use std::cell::Cell;
use std::rc::Rc;

use rowcore::record::{DecodeError, FieldCodec, LazyOwnedValue, OwnedRecord, Record, SerialType};
use rowcore::value::{OwnedValue, Value};

/// A codec that reads one big-endian byte as an integer and counts its calls.
struct CountingCodec {
    calls: Cell<usize>,
}

impl FieldCodec for CountingCodec {
    fn read_field(
        &self,
        payload: &Vec<u8>,
        serial_type: SerialType,
        offset: usize,
    ) -> Result<OwnedValue, DecodeError> {
        self.calls.set(self.calls.get() + 1);
        match serial_type {
            SerialType::Int8 if offset < payload.len() => {
                Ok(OwnedValue::Integer(payload[offset] as i8 as i64))
            }
            _ => Err(DecodeError::Malformed),
        }
    }
}

fn lazy_record() -> OwnedRecord {
    OwnedRecord {
        raw_payload: vec![7, 42],
        lazy_owned_values: vec![
            LazyOwnedValue::lazy(SerialType::Int8, 1),
            LazyOwnedValue::lazy(SerialType::Float64, 0),
        ],
    }
}

#[test]
fn built_record_round_trips() {
    let codec = CountingCodec { calls: Cell::new(0) };
    let mut rec = OwnedRecord::new(vec![
        OwnedValue::Integer(1),
        OwnedValue::Text(Rc::new("a".to_string())),
    ]);
    assert!(rec.raw_payload.is_empty());
    assert!(matches!(rec.decode_column(&codec, 0), Ok(OwnedValue::Integer(1))));
    match rec.decode_column(&codec, 1) {
        Ok(OwnedValue::Text(s)) => assert_eq!(s.as_str(), "a"),
        other => panic!("unexpected {:?}", other),
    }
    assert_eq!(codec.calls.get(), 0);
}

#[test]
fn lazy_decode_is_idempotent() {
    let codec = CountingCodec { calls: Cell::new(0) };
    let mut rec = lazy_record();
    let first = rec.decode_column(&codec, 0);
    assert_eq!(codec.calls.get(), 1);
    let second = rec.decode_column(&codec, 0);
    assert_eq!(codec.calls.get(), 1);
    assert!(matches!(first, Ok(OwnedValue::Integer(42))));
    assert!(matches!(second, Ok(OwnedValue::Integer(42))));
    assert!(matches!(rec.lazy_owned_values[0].value, Some(OwnedValue::Integer(42))));
}

#[test]
fn decode_out_of_range_fails() {
    let codec = CountingCodec { calls: Cell::new(0) };
    let mut rec = lazy_record();
    assert!(matches!(rec.decode_column(&codec, 2), Err(DecodeError::ColumnOutOfRange)));
    assert_eq!(codec.calls.get(), 0);
}

#[test]
fn decode_malformed_field_fails_and_stays_lazy() {
    let codec = CountingCodec { calls: Cell::new(0) };
    let mut rec = lazy_record();
    assert!(matches!(rec.decode_column(&codec, 1), Err(DecodeError::Malformed)));
    assert!(rec.lazy_owned_values[1].value.is_none());
}

#[test]
fn read_column_does_not_cache() {
    let codec = CountingCodec { calls: Cell::new(0) };
    let rec = lazy_record();
    assert!(matches!(rec.read_column(&codec, 0), Ok(OwnedValue::Integer(42))));
    assert!(matches!(rec.read_column(&codec, 0), Ok(OwnedValue::Integer(42))));
    assert_eq!(codec.calls.get(), 2);
    assert!(rec.lazy_owned_values[0].value.is_none());
}

#[test]
fn slot_constructors() {
    let slot = LazyOwnedValue::new(OwnedValue::Integer(3));
    assert!(matches!(slot.value, Some(OwnedValue::Integer(3))));
    assert_eq!(slot.serial_type, SerialType::Null);
    assert_eq!(slot.offset, 0);
    let lazy = LazyOwnedValue::lazy(SerialType::Text(4), 9);
    assert!(lazy.value.is_none());
    assert_eq!(lazy.serial_type, SerialType::Text(4));
    assert_eq!(lazy.offset, 9);
}

#[test]
fn borrowed_record_keeps_values() {
    let s = "t".to_string();
    let rec = Record::new(vec![Value::Integer(1), Value::Text(&s)]);
    assert_eq!(rec.values, vec![Value::Integer(1), Value::Text(&s)]);
}

#[test]
fn owned_record_clone_is_equal_in_content() {
    let rec = OwnedRecord::new(vec![OwnedValue::Integer(5)]);
    let copy = rec.clone();
    assert!(matches!(copy.lazy_owned_values[0].value, Some(OwnedValue::Integer(5))));
    assert_eq!(copy.lazy_owned_values.len(), 1);
}
