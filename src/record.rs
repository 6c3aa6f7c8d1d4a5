use vstd::prelude::*;
use crate::value::{OwnedValue, Value, ValueModel};

verus! {

/// The on-disk kind and width of one field; the record only stores it and
/// hands it to the field codec.
#[derive(Debug, Clone, Copy, PartialEq, Eq, Structural)]
pub enum SerialType {
    Null,
    Int8,
    Int16,
    Int24,
    Int32,
    Int48,
    Int64,
    Float64,
    ConstInt0,
    ConstInt1,
    Blob(usize),
    Text(usize),
}

/// Why a column could not be read.
#[derive(Debug, Clone, Copy, PartialEq, Eq, Structural)]
pub enum DecodeError {
    /// The column index is past the last column.
    ColumnOutOfRange,
    /// The field codec could not parse the bytes at the recorded offset.
    Malformed,
}

/// The binary field codec: decodes the one field of a payload that starts at
/// `offset` and has the given serial type.
pub trait FieldCodec {
    fn read_field(&self, payload: &Vec<u8>, serial_type: SerialType, offset: usize) -> Result<
        OwnedValue,
        DecodeError,
    >;
}

/// An ephemeral row of borrowed values, used for one inspection.
#[derive(Debug)]
pub struct Record<'a> {
    pub values: Vec<Value<'a>>,
}

impl<'a> Record<'a> {
    pub fn new(values: Vec<Value<'a>>) -> (r: Self)
        ensures
            r.values == values,
    {
        Self { values }
    }
}

/// One decode-cache slot of a record: either a materialized value, or the
/// serial type and byte offset of a field not decoded yet.
#[derive(Debug, PartialEq)]
pub struct LazyOwnedValue {
    pub value: Option<OwnedValue>,
    pub serial_type: SerialType,
    pub offset: usize,
}

/// A durable row: its encoded payload and one decode-cache slot per column.
#[derive(Debug, PartialEq)]
pub struct OwnedRecord {
    pub raw_payload: Vec<u8>,
    pub lazy_owned_values: Vec<LazyOwnedValue>,
}

/// The mathematical content of a decode-cache slot.
pub struct SlotModel {
    pub value: Option<ValueModel>,
    pub serial_type: SerialType,
    pub offset: usize,
}

/// The mathematical content of a record: its payload bytes and its slots.
pub struct RecordModel {
    pub payload: Seq<u8>,
    pub slots: Seq<SlotModel>,
}

impl LazyOwnedValue {
    pub open spec fn view(&self) -> SlotModel
        decreases self, 0int,
    {
        SlotModel {
            value: match self.value {
                Some(v) => Some(v.view()),
                None => None,
            },
            serial_type: self.serial_type,
            offset: self.offset,
        }
    }
}

impl LazyOwnedValue {
    /// A slot that holds a value already.
    pub fn new(owned_value: OwnedValue) -> (r: LazyOwnedValue)
        ensures
            r.value == Some(owned_value),
            r.serial_type == SerialType::Null,
            r.offset == 0,
    {
        LazyOwnedValue { value: Some(owned_value), serial_type: SerialType::Null, offset: 0 }
    }

    /// A slot whose field is decoded on first access.
    pub fn lazy(serial_type: SerialType, offset: usize) -> (r: LazyOwnedValue)
        ensures
            r.value is None,
            r.serial_type == serial_type,
            r.offset == offset,
    {
        LazyOwnedValue { value: None, serial_type, offset }
    }
}

/// Models of the first `n` slots of `s`.
pub open spec fn slots_prefix(s: Seq<LazyOwnedValue>, n: int) -> Seq<SlotModel>
    decreases s, n,
{
    if n <= 0 || n > s.len() {
        Seq::empty()
    } else {
        slots_prefix(s, n - 1).push(s[n - 1].view())
    }
}

impl OwnedRecord {
    pub open spec fn view(&self) -> RecordModel
        decreases self, 0int,
    {
        RecordModel {
            payload: self.raw_payload@,
            slots: slots_prefix(self.lazy_owned_values@, self.lazy_owned_values@.len() as int),
        }
    }
}

/// The model of a record's slots is the slot-by-slot model.
pub proof fn lemma_slots_prefix_index(s: Seq<LazyOwnedValue>, n: int)
    requires
        0 <= n <= s.len(),
    ensures
        slots_prefix(s, n).len() == n,
        forall|j: int| 0 <= j < n ==> #[trigger] slots_prefix(s, n)[j] == s[j]@,
    decreases n,
{
    if n > 0 {
        lemma_slots_prefix_index(s, n - 1);
    }
}

/// The model of a decode outcome.
pub open spec fn result_model(r: Result<OwnedValue, DecodeError>) -> Result<ValueModel, DecodeError> {
    match r {
        Ok(v) => Ok(v@),
        Err(e) => Err(e),
    }
}

/// What reading column `index` does: out of range it fails; a materialized
/// slot gives its value; a lazy slot takes what the codec gave, and on
/// success holds it from then on. Nothing else changes.
pub open spec fn decode_step(
    before: RecordModel,
    index: int,
    after: RecordModel,
    r: Result<ValueModel, DecodeError>,
) -> bool {
    if index < 0 || index >= before.slots.len() {
        r == Err::<ValueModel, DecodeError>(DecodeError::ColumnOutOfRange) && after == before
    } else {
        match before.slots[index].value {
            Some(v) => r == Ok::<ValueModel, DecodeError>(v) && after == before,
            None => match r {
                Ok(v) => after == RecordModel {
                    payload: before.payload,
                    slots: before.slots.update(
                        index,
                        SlotModel {
                            value: Some(v),
                            serial_type: before.slots[index].serial_type,
                            offset: before.slots[index].offset,
                        },
                    ),
                },
                Err(_) => after == before,
            },
        }
    }
}

/// The model of a record built in memory from `values`: no payload, and
/// each slot holding its value already.
pub open spec fn built_from(values: Seq<OwnedValue>) -> RecordModel {
    RecordModel {
        payload: Seq::empty(),
        slots: Seq::new(
            values.len(),
            |i: int| SlotModel { value: Some(values[i]@), serial_type: SerialType::Null, offset: 0 },
        ),
    }
}

/// Reading back a column of a record built in memory gives the value it
/// was built from, and changes nothing.
pub proof fn lemma_built_round_trip(
    values: Seq<OwnedValue>,
    index: int,
    after: RecordModel,
    r: Result<ValueModel, DecodeError>,
)
    requires
        0 <= index < values.len(),
        decode_step(built_from(values), index, after, r),
    ensures
        r == Ok::<ValueModel, DecodeError>(values[index]@),
        after == built_from(values),
{
}

/// What reading column `index` without caching gives: out of range it
/// fails, a materialized slot gives its value, and a lazy slot gives what
/// the codec gave.
pub open spec fn read_step(rec: RecordModel, index: int, r: Result<ValueModel, DecodeError>) -> bool {
    if index < 0 || index >= rec.slots.len() {
        r == Err::<ValueModel, DecodeError>(DecodeError::ColumnOutOfRange)
    } else {
        match rec.slots[index].value {
            Some(v) => r == Ok::<ValueModel, DecodeError>(v),
            None => true,
        }
    }
}

/// Decoding is idempotent: once a column was read, reading it again gives
/// the same value and leaves the record as it is.
pub proof fn lemma_decode_idempotent(
    r0: RecordModel,
    r1: RecordModel,
    r2: RecordModel,
    index: int,
    first: ValueModel,
    second: Result<ValueModel, DecodeError>,
)
    requires
        decode_step(r0, index, r1, Ok(first)),
        decode_step(r1, index, r2, second),
    ensures
        second == Ok::<ValueModel, DecodeError>(first),
        r2 == r1,
        r1.slots[index].value == Some(first),
{
}

proof fn lemma_slots_prefix_agree(a: Seq<LazyOwnedValue>, b: Seq<LazyOwnedValue>, n: int)
    requires
        0 <= n <= a.len(),
        n <= b.len(),
        forall|j: int| 0 <= j < n ==> #[trigger] a[j]@ == b[j]@,
    ensures
        slots_prefix(a, n) == slots_prefix(b, n),
    decreases n,
{
    if n > 0 {
        lemma_slots_prefix_agree(a, b, n - 1);
        assert(a[n - 1]@ == b[n - 1]@);
    }
}

pub(crate) fn clone_record(rec: &OwnedRecord) -> (r: OwnedRecord)
    ensures
        r@ == rec@,
    decreases rec, 0int,
{
    let mut slots: Vec<LazyOwnedValue> = Vec::new();
    let n = rec.lazy_owned_values.len();
    let mut i: usize = 0;
    while i < n
        invariant
            n == rec.lazy_owned_values@.len(),
            i <= n,
            slots@.len() == i,
            forall|j: int| 0 <= j < i ==> #[trigger] slots@[j]@ == rec.lazy_owned_values@[j]@,
        decreases n - i,
    {
        proof {
            vstd::std_specs::vec::axiom_vec_index_decreases(rec.lazy_owned_values, i as int);
        }
        let slot = clone_slot(&rec.lazy_owned_values[i]);
        slots.push(slot);
        i = i + 1;
    }
    let payload = rec.raw_payload.clone();
    proof {
        lemma_slots_prefix_agree(slots@, rec.lazy_owned_values@, n as int);
        assert(payload@ =~= rec.raw_payload@);
    }
    OwnedRecord { raw_payload: payload, lazy_owned_values: slots }
}

fn clone_slot(slot: &LazyOwnedValue) -> (r: LazyOwnedValue)
    ensures
        r@ == slot@,
    decreases slot, 0int,
{
    let value = match &slot.value {
        Some(v) => Some(crate::value::clone_value(v)),
        None => None,
    };
    LazyOwnedValue { value, serial_type: slot.serial_type, offset: slot.offset }
}

impl OwnedRecord {
    /// A record built in memory: no payload, every slot materialized.
    pub fn new(owned_values: Vec<OwnedValue>) -> (r: Self)
        ensures
            r@ == built_from(owned_values@),
    {
        let mut slots: Vec<LazyOwnedValue> = Vec::new();
        let n = owned_values.len();
        let mut i: usize = 0;
        while i < n
            invariant
                n == owned_values@.len(),
                i <= n,
                slots@.len() == i,
                forall|j: int|
                    0 <= j < i ==> #[trigger] slots@[j]@ == (SlotModel {
                        value: Some(owned_values@[j]@),
                        serial_type: SerialType::Null,
                        offset: 0,
                    }),
            decreases n - i,
        {
            slots.push(LazyOwnedValue::new(owned_values[i].clone()));
            i = i + 1;
        }
        let r = Self { raw_payload: Vec::new(), lazy_owned_values: slots };
        proof {
            lemma_slots_prefix_index(r.lazy_owned_values@, n as int);
            assert(r@.slots =~= built_from(owned_values@).slots);
            assert(r@.payload =~= built_from(owned_values@).payload);
        }
        r
    }

    /// Reads column `index`, decoding a lazy slot without caching it.
    pub fn read_column<C: FieldCodec>(&self, codec: &C, index: usize) -> (r: Result<
        OwnedValue,
        DecodeError,
    >)
        ensures
            read_step(self@, index as int, result_model(r)),
    {
        proof {
            lemma_slots_prefix_index(self.lazy_owned_values@, self.lazy_owned_values@.len() as int);
        }
        if index >= self.lazy_owned_values.len() {
            return Err(DecodeError::ColumnOutOfRange);
        }
        let slot = &self.lazy_owned_values[index];
        match &slot.value {
            Some(v) => Ok(v.clone()),
            None => codec.read_field(&self.raw_payload, slot.serial_type, slot.offset),
        }
    }

    /// Reads column `index`, decoding and caching it on first access.
    pub fn decode_column<C: FieldCodec>(&mut self, codec: &C, index: usize) -> (r: Result<
        OwnedValue,
        DecodeError,
    >)
        ensures
            decode_step(old(self)@, index as int, final(self)@, result_model(r)),
    {
        proof {
            lemma_slots_prefix_index(self.lazy_owned_values@, self.lazy_owned_values@.len() as int);
        }
        if index >= self.lazy_owned_values.len() {
            return Err(DecodeError::ColumnOutOfRange);
        }
        match &self.lazy_owned_values[index].value {
            Some(v) => {
                return Ok(v.clone());
            },
            None => {},
        }
        let serial_type = self.lazy_owned_values[index].serial_type;
        let offset = self.lazy_owned_values[index].offset;
        let decoded = codec.read_field(&self.raw_payload, serial_type, offset);
        match decoded {
            Ok(v) => {
                let kept = v.clone();
                let ghost before = self.lazy_owned_values@;
                self.lazy_owned_values[index] = LazyOwnedValue {
                    value: Some(kept),
                    serial_type,
                    offset,
                };
                proof {
                    let n = before.len() as int;
                    lemma_slots_prefix_index(before, n);
                    lemma_slots_prefix_index(self.lazy_owned_values@, n);
                    assert(self@.slots =~= old(self)@.slots.update(
                        index as int,
                        SlotModel {
                            value: Some(v@),
                            serial_type: old(self)@.slots[index as int].serial_type,
                            offset: old(self)@.slots[index as int].offset,
                        },
                    ));
                }
                Ok(v)
            },
            Err(e) => Err(e),
        }
    }
}

impl Clone for LazyOwnedValue {
    fn clone(&self) -> (r: Self)
        ensures
            r@ == self@,
    {
        clone_slot(self)
    }
}

impl Clone for OwnedRecord {
    fn clone(&self) -> (r: Self)
        ensures
            r@ == self@,
    {
        clone_record(self)
    }
}

} // verus!
