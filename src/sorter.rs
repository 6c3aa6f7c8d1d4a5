use vstd::prelude::*;
use ordered_multimap::ListOrderedMultimap;
use crate::cursor::{Cursor, CursorError, CursorResult};
use crate::record::{FieldCodec, OwnedRecord, RecordModel};
use crate::value::{OwnedValue, ValueModel};

verus! {

/// The insertion-ordered multimap that buffers a sorter's rows.
#[verifier::external_type_specification]
#[verifier::external_body]
#[verifier::reject_recursive_types(K)]
#[verifier::reject_recursive_types(V)]
#[verifier::reject_recursive_types(S)]
pub struct ExListOrderedMultimap<K, V, S>(ListOrderedMultimap<K, V, S>);

/// The (key, row) pairs of a multimap, in the order of its value list.
pub uninterp spec fn multimap_entries(m: ListOrderedMultimap<String, OwnedRecord>) -> Seq<
    (Seq<char>, OwnedRecord),
>;

/// Relies on `ListOrderedMultimap::new`: the new multimap holds nothing.
#[verifier::external_body]
fn multimap_new() -> (m: ListOrderedMultimap<String, OwnedRecord>)
    ensures
        multimap_entries(m) == Seq::<(Seq<char>, OwnedRecord)>::empty(),
{
    ListOrderedMultimap::new()
}

/// Relies on `ListOrderedMultimap::append`: the pair goes to the back of the
/// value list, and every value already there, under any key, stays.
#[verifier::external_body]
fn multimap_append(m: &mut ListOrderedMultimap<String, OwnedRecord>, key: String, value: OwnedRecord)
    ensures
        multimap_entries(*final(m)) == multimap_entries(*old(m)).push((key@, value)),
{
    let _ = m.append(key, value);
}

/// Relies on `ListOrderedMultimap::pop_front`: it removes and returns the
/// first pair of the value list, or `None` when there is none.
#[verifier::external_body]
fn multimap_pop_front(m: &mut ListOrderedMultimap<String, OwnedRecord>) -> (r: Option<OwnedRecord>)
    ensures
        multimap_entries(*old(m)).len() == 0 ==> r is None && multimap_entries(*final(m))
            == multimap_entries(*old(m)),
        multimap_entries(*old(m)).len() > 0 ==> r == Some(multimap_entries(*old(m))[0].1)
            && multimap_entries(*final(m)) == multimap_entries(*old(m)).drop_first(),
{
    m.pop_front().map(|(_, v)| v)
}

/// The character of a decimal digit.
pub open spec fn digit_char(d: int) -> char {
    seq!['0', '1', '2', '3', '4', '5', '6', '7', '8', '9'][d]
}

/// The decimal digits of `n`, most significant first.
pub open spec fn digits_of(n: nat) -> Seq<char>
    decreases n,
{
    if n < 10 {
        seq![digit_char(n as int)]
    } else {
        digits_of(n / 10).push(digit_char((n % 10) as int))
    }
}

/// The decimal form of `i`, with a leading `-` when negative.
pub open spec fn decimal_of(i: int) -> Seq<char> {
    if i < 0 {
        seq!['-'] + digits_of((-i) as nat)
    } else {
        digits_of(i as nat)
    }
}

/// Relies on `i64::to_string` (its `Display`): the decimal form.
#[verifier::external_body]
fn decimal_string(i: i64) -> (r: String)
    ensures
        r@ == decimal_of(i as int),
{
    i.to_string()
}

/// The sort key of a value: an integer's decimal form, or the text itself.
pub open spec fn key_of(v: ValueModel) -> Option<Seq<char>> {
    match v {
        ValueModel::Integer(i) => Some(decimal_of(i as int)),
        ValueModel::Text(s) => Some(s),
        _ => None,
    }
}

/// Derives the sort key of a value.
pub fn sort_key(value: &OwnedValue) -> (r: Result<String, CursorError>)
    ensures
        match key_of(value@) {
            Some(k) => r is Ok && r->Ok_0@ == k,
            None => r == Err::<String, CursorError>(CursorError::UnsupportedKey),
        },
{
    match value {
        OwnedValue::Integer(i) => Ok(decimal_string(*i)),
        OwnedValue::Text(s) => Ok((**s).clone()),
        _ => Err(CursorError::UnsupportedKey),
    }
}

/// The state of a sorter: the buffered (key, row) pairs in the order they
/// will be replayed, and the current row.
pub struct SorterModel {
    pub pending: Seq<(Seq<char>, RecordModel)>,
    pub current: Option<RecordModel>,
}

/// The model of an optional row.
pub open spec fn option_model(c: Option<OwnedRecord>) -> Option<RecordModel> {
    match c {
        Some(r) => Some(r@),
        None => None,
    }
}

/// Buffering a row under a key: it goes after every row buffered so far.
pub open spec fn push_row(s: SorterModel, key: Seq<char>, row: RecordModel) -> SorterModel {
    SorterModel { pending: s.pending.push((key, row)), current: s.current }
}

/// Moving on: the earliest buffered row becomes current, or none is current
/// once the buffer is drained.
pub open spec fn advance(s: SorterModel) -> SorterModel {
    if s.pending.len() == 0 {
        SorterModel { pending: s.pending, current: None }
    } else {
        SorterModel { pending: s.pending.drop_first(), current: Some(s.pending[0].1) }
    }
}

/// What accepting a row does: the key comes from column 0; on success the
/// row is buffered under it, and on failure nothing changes.
pub open spec fn insert_step(
    before: SorterModel,
    row: RecordModel,
    after: SorterModel,
    r: Result<(), CursorError>,
) -> bool {
    if row.slots.len() == 0 {
        r == Err::<(), CursorError>(CursorError::Decode(crate::record::DecodeError::ColumnOutOfRange))
            && after == before
    } else {
        match row.slots[0].value {
            Some(v) => match key_of(v) {
                Some(k) => r is Ok && after == push_row(before, k, row),
                None => r == Err::<(), CursorError>(CursorError::UnsupportedKey) && after == before,
            },
            None => match r {
                Ok(_) => exists|v: ValueModel|
                    #![trigger key_of(v)]
                    key_of(v) is Some && after == push_row(before, key_of(v)->Some_0, row),
                Err(e) => after == before && (e is Decode || e is UnsupportedKey),
            },
        }
    }
}

/// Buffering each of `rows` in turn.
pub open spec fn push_all(s: SorterModel, rows: Seq<(Seq<char>, RecordModel)>) -> SorterModel
    decreases rows.len(),
{
    if rows.len() == 0 {
        s
    } else {
        push_row(push_all(s, rows.drop_last()), rows.last().0, rows.last().1)
    }
}

/// Moving on `n` times, by `rewind` or `next`.
pub open spec fn advance_n(s: SorterModel, n: nat) -> SorterModel
    decreases n,
{
    if n == 0 {
        s
    } else {
        advance(advance_n(s, (n - 1) as nat))
    }
}

proof fn lemma_push_all(s: SorterModel, rows: Seq<(Seq<char>, RecordModel)>)
    ensures
        push_all(s, rows).pending == s.pending + rows,
        push_all(s, rows).current == s.current,
    decreases rows.len(),
{
    if rows.len() > 0 {
        lemma_push_all(s, rows.drop_last());
        assert((s.pending + rows.drop_last()).push(rows.last()) =~= s.pending + rows);
    } else {
        assert(s.pending + rows =~= s.pending);
    }
}

proof fn lemma_advance_n(s: SorterModel, n: nat)
    requires
        n <= s.pending.len(),
    ensures
        advance_n(s, n).pending == s.pending.skip(n as int),
        n > 0 ==> advance_n(s, n).current == Some(s.pending[n - 1].1),
    decreases n,
{
    if n == 0 {
        assert(s.pending.skip(0) =~= s.pending);
    } else {
        lemma_advance_n(s, (n - 1) as nat);
        assert(s.pending.skip(n - 1).drop_first() =~= s.pending.skip(n as int));
    }
}

/// Rows come out in the order they went in, whatever their keys: after
/// rows are buffered into an empty sorter, the `k`-th move makes the `k`-th
/// row current, and one move more leaves no current row.
pub proof fn lemma_sorter_fifo(s: SorterModel, rows: Seq<(Seq<char>, RecordModel)>)
    requires
        s.pending.len() == 0,
    ensures
        forall|k: int|
            0 <= k < rows.len() ==> #[trigger] advance_n(push_all(s, rows), (k + 1) as nat).current
                == Some(rows[k].1),
        advance_n(push_all(s, rows), (rows.len() + 1) as nat).current is None,
{
    lemma_push_all(s, rows);
    assert(s.pending + rows =~= rows);
    let t = push_all(s, rows);
    assert forall|k: int| 0 <= k < rows.len() implies #[trigger] advance_n(t, (k + 1) as nat).current
        == Some(rows[k].1) by {
        lemma_advance_n(t, (k + 1) as nat);
    }
    lemma_advance_n(t, rows.len() as nat);
}

/// A fresh sorter has no current row; after one row is buffered and the
/// sorter rewound, that row is current; one move more drains it.
pub proof fn lemma_sorter_emptiness(s: SorterModel, key: Seq<char>, row: RecordModel)
    requires
        s.pending.len() == 0,
        s.current is None,
    ensures
        advance(push_row(s, key, row)).current == Some(row),
        advance(advance(push_row(s, key, row))).current is None,
{
}

/// A row buffer that replays rows one at a time, earliest inserted first.
pub struct Sorter<C> {
    records: ListOrderedMultimap<String, OwnedRecord>,
    current: Option<OwnedRecord>,
    codec: C,
}

impl<C> Sorter<C> {
    pub closed spec fn view(&self) -> SorterModel {
        SorterModel {
            pending: multimap_entries(self.records).map_values(
                |e: (Seq<char>, OwnedRecord)| (e.0, e.1@),
            ),
            current: option_model(self.current),
        }
    }

    /// An empty sorter; `codec` decodes lazy sort-key columns.
    pub fn new(codec: C) -> (r: Self)
        ensures
            r@.pending.len() == 0,
            r@.current is None,
    {
        Self { records: multimap_new(), current: None, codec }
    }

    /// Buffers `record` under `key`, after every row buffered so far.
    pub fn insert_with_key(&mut self, key: String, record: OwnedRecord)
        ensures
            final(self)@ == push_row(old(self)@, key@, record@),
    {
        multimap_append(&mut self.records, key, record);
        proof {
            assert(self@.pending =~= old(self)@.pending.push((key@, record@)));
        }
    }

    fn pop_into_current(&mut self)
        ensures
            final(self)@ == advance(old(self)@),
    {
        self.current = multimap_pop_front(&mut self.records);
        proof {
            if old(self)@.pending.len() > 0 {
                assert(self@.pending =~= old(self)@.pending.drop_first());
            }
        }
    }
}

impl<C: FieldCodec> Cursor for Sorter<C> {
    fn is_empty(&self) -> (r: bool)
        ensures
            r == (self@.current is None),
    {
        self.current.is_none()
    }

    fn rewind(&mut self) -> (r: Result<CursorResult<()>, CursorError>)
        ensures
            r is Ok && r->Ok_0 is Done,
            final(self)@ == advance(old(self)@),
    {
        self.pop_into_current();
        Ok(CursorResult::Done(()))
    }

    fn next(&mut self) -> (r: Result<CursorResult<()>, CursorError>)
        ensures
            r is Ok && r->Ok_0 is Done,
            final(self)@ == advance(old(self)@),
    {
        self.pop_into_current();
        Ok(CursorResult::Done(()))
    }

    fn wait_for_completion(&mut self) -> (r: Result<(), CursorError>)
        ensures
            r is Ok,
            final(self)@ == old(self)@,
    {
        Ok(())
    }

    fn rowid(&self) -> (r: Result<Option<u64>, CursorError>)
        ensures
            r == Err::<Option<u64>, CursorError>(CursorError::Unsupported),
    {
        Err(CursorError::Unsupported)
    }

    fn record(&self) -> (r: Result<&Option<OwnedRecord>, CursorError>)
        ensures
            r is Ok && option_model(*r->Ok_0) == self@.current,
    {
        Ok(&self.current)
    }

    /// Accepts a row: derives its key from column 0 and buffers a copy of
    /// it under that key; the current row stays as it is.
    fn insert(&mut self, record: &OwnedRecord) -> (r: Result<(), CursorError>)
        ensures
            insert_step(old(self)@, record@, final(self)@, r),
    {
        let value = match record.read_column(&self.codec, 0) {
            Ok(v) => v,
            Err(e) => {
                return Err(CursorError::Decode(e));
            },
        };
        let key = match sort_key(&value) {
            Ok(k) => k,
            Err(e) => {
                return Err(e);
            },
        };
        let row = record.clone();
        self.insert_with_key(key, row);
        Ok(())
    }
}

} // verus!
