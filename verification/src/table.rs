//! The table `kv` as a value: its rows in the order in which they were
//! inserted, and what the statements of the store mean on them. The laws of
//! the store are stated and proved here, for a table that nobody else
//! writes to between two statements.
//!
//! [`Table`] runs those meanings. It is what the meanings are held against
//! the engine with: the same statements run on a `Table` and on a database
//! must answer alike.

use crate::store::{removal, upsert, upsert_of, Write, WriteView};
use vstd::prelude::*;

verus! {

/// A row of the table as the store sees it: the key and the data, without
/// the surrogate id.
pub ghost struct Entry {
    pub key: Seq<char>,
    pub data: Seq<char>,
}

/// The data of the first row under `key`, if there is one.
pub open spec fn first_data(rows: Seq<Entry>, key: Seq<char>) -> Option<Seq<char>>
    decreases rows.len(),
{
    if rows.len() == 0 {
        None
    } else {
        match first_data(rows.drop_last(), key) {
            Some(data) => Some(data),
            None => if rows.last().key == key {
                Some(rows.last().data)
            } else {
                None
            },
        }
    }
}

/// The number of rows under `key`.
pub open spec fn count_key(rows: Seq<Entry>, key: Seq<char>) -> nat
    decreases rows.len(),
{
    if rows.len() == 0 {
        0
    } else {
        count_key(rows.drop_last(), key) + if rows.last().key == key {
            1nat
        } else {
            0nat
        }
    }
}

/// The rows that are not under `key`, in their order.
pub open spec fn without(rows: Seq<Entry>, key: Seq<char>) -> Seq<Entry>
    decreases rows.len(),
{
    if rows.len() == 0 {
        rows
    } else if rows.last().key == key {
        without(rows.drop_last(), key)
    } else {
        without(rows.drop_last(), key).push(rows.last())
    }
}

/// The rows with `data` in place of the data of every row under `key`.
pub open spec fn with_data(rows: Seq<Entry>, key: Seq<char>, data: Seq<char>) -> Seq<Entry> {
    Seq::new(
        rows.len(),
        |i: int|
            if rows[i].key == key {
                Entry { key, data }
            } else {
                rows[i]
            },
    )
}

/// The keys of the rows, in their order.
pub open spec fn keys_of(rows: Seq<Entry>) -> Seq<Seq<char>> {
    Seq::new(rows.len(), |i: int| rows[i].key)
}

/// No key has more than one row.
pub open spec fn unique_keys(rows: Seq<Entry>) -> bool {
    forall|key: Seq<char>| count_key(rows, key) <= 1
}

/// The table after a write statement.
pub open spec fn applied(rows: Seq<Entry>, write: WriteView) -> Seq<Entry> {
    match write {
        WriteView::Update { key, data } => with_data(rows, key, data),
        WriteView::Insert { key, data } => rows.push(Entry { key, data }),
        WriteView::Delete { key } => without(rows, key),
    }
}

/// The number of rows that a write statement changes.
pub open spec fn affected(rows: Seq<Entry>, write: WriteView) -> nat {
    match write {
        WriteView::Update { key, .. } => count_key(rows, key),
        WriteView::Insert { .. } => 1,
        WriteView::Delete { key } => count_key(rows, key),
    }
}

/// The table after `data` was put under `key`: a lookup, then the
/// statement that the lookup calls for.
pub open spec fn put_rows(rows: Seq<Entry>, key: Seq<char>, data: Seq<char>) -> Seq<Entry> {
    applied(rows, upsert_of(first_data(rows, key) is Some, key, data))
}

/// A key is found exactly where it has a row.
pub proof fn lemma_found_iff_counted(rows: Seq<Entry>, key: Seq<char>)
    ensures
        first_data(rows, key) is Some <==> count_key(rows, key) > 0,
        count_key(rows, key) <= rows.len(),
    decreases rows.len(),
{
    if rows.len() > 0 {
        lemma_found_iff_counted(rows.drop_last(), key);
    }
}

/// A key that is not found is the key of no row.
pub proof fn lemma_absent_in_every_row(rows: Seq<Entry>, key: Seq<char>)
    requires
        first_data(rows, key) is None,
    ensures
        forall|i: int| 0 <= i < rows.len() ==> rows[i].key != key,
    decreases rows.len(),
{
    if rows.len() > 0 {
        lemma_absent_in_every_row(rows.drop_last(), key);
        assert forall|i: int| 0 <= i < rows.len() implies rows[i].key != key by {
            if i < rows.len() - 1 {
                assert(rows.drop_last()[i] == rows[i]);
            }
        }
    }
}

/// What a prefix of the table holds under a key, the table holds too.
pub proof fn lemma_found_in_prefix(rows: Seq<Entry>, n: int, key: Seq<char>)
    requires
        0 <= n <= rows.len(),
        first_data(rows.take(n), key) is Some,
    ensures
        first_data(rows, key) == first_data(rows.take(n), key),
    decreases rows.len() - n,
{
    if n < rows.len() {
        assert(rows.take(n + 1).drop_last() =~= rows.take(n));
        lemma_found_in_prefix(rows, n + 1, key);
    } else {
        assert(rows.take(n) =~= rows);
    }
}

proof fn lemma_update(rows: Seq<Entry>, key: Seq<char>, data: Seq<char>, other: Seq<char>)
    ensures
        count_key(with_data(rows, key, data), other) == count_key(rows, other),
        first_data(with_data(rows, key, data), other) == if other == key {
            if first_data(rows, key) is Some {
                Some(data)
            } else {
                None
            }
        } else {
            first_data(rows, other)
        },
    decreases rows.len(),
{
    if rows.len() > 0 {
        lemma_update(rows.drop_last(), key, data, other);
        assert(with_data(rows, key, data).drop_last() =~= with_data(rows.drop_last(), key, data));
    }
}

proof fn lemma_insert(rows: Seq<Entry>, row: Entry, other: Seq<char>)
    ensures
        count_key(rows.push(row), other) == count_key(rows, other) + if row.key == other {
            1nat
        } else {
            0nat
        },
        first_data(rows.push(row), other) == match first_data(rows, other) {
            Some(data) => Some(data),
            None => if row.key == other {
                Some(row.data)
            } else {
                None
            },
        },
{
    assert(rows.push(row).drop_last() =~= rows);
}

proof fn lemma_delete(rows: Seq<Entry>, key: Seq<char>, other: Seq<char>)
    ensures
        without(rows, key).len() + count_key(rows, key) == rows.len(),
        count_key(without(rows, key), other) == if other == key {
            0
        } else {
            count_key(rows, other)
        },
        first_data(without(rows, key), other) == if other == key {
            None
        } else {
            first_data(rows, other)
        },
        count_key(rows, key) == 0 ==> without(rows, key) == rows,
    decreases rows.len(),
{
    if rows.len() > 0 {
        lemma_delete(rows.drop_last(), key, other);
        if rows.last().key != key {
            lemma_insert(without(rows.drop_last(), key), rows.last(), other);
            if count_key(rows, key) == 0 {
                assert(without(rows, key) =~= rows);
            }
        }
    }
}

/// Round trip: what was put under a key is what a lookup of the key finds,
/// character for character.
pub proof fn lemma_put_then_get(rows: Seq<Entry>, key: Seq<char>, data: Seq<char>)
    ensures
        first_data(put_rows(rows, key, data), key) == Some(data),
{
    lemma_update(rows, key, data, key);
    lemma_insert(rows, Entry { key, data }, key);
}

/// A put leaves every other key as it was: what a lookup finds under it,
/// and how many rows it has.
pub proof fn lemma_put_keeps_other_keys(
    rows: Seq<Entry>,
    key: Seq<char>,
    data: Seq<char>,
    other: Seq<char>,
)
    requires
        other != key,
    ensures
        first_data(put_rows(rows, key, data), other) == first_data(rows, other),
        count_key(put_rows(rows, key, data), other) == count_key(rows, other),
{
    lemma_update(rows, key, data, other);
    lemma_insert(rows, Entry { key, data }, other);
}

/// A put adds a row only where the key had none: afterwards the key has
/// the rows it had, or one.
pub proof fn lemma_put_counts(rows: Seq<Entry>, key: Seq<char>, data: Seq<char>)
    ensures
        count_key(put_rows(rows, key, data), key) == if count_key(rows, key) == 0 {
            1
        } else {
            count_key(rows, key)
        },
        put_rows(rows, key, data).len() == if count_key(rows, key) == 0 {
            rows.len() + 1
        } else {
            rows.len()
        },
{
    lemma_found_iff_counted(rows, key);
    lemma_update(rows, key, data, key);
    lemma_insert(rows, Entry { key, data }, key);
}

/// Overwrite: two puts under one key leave what the second alone would
/// have left. Where the key had at most one row before, it has exactly one
/// afterwards, and that row holds the second value.
pub proof fn lemma_put_twice(rows: Seq<Entry>, key: Seq<char>, first: Seq<char>, second: Seq<char>)
    ensures
        put_rows(put_rows(rows, key, first), key, second) == put_rows(rows, key, second),
        first_data(put_rows(put_rows(rows, key, first), key, second), key) == Some(second),
        count_key(rows, key) <= 1 ==> count_key(
            put_rows(put_rows(rows, key, first), key, second),
            key,
        ) == 1,
{
    let once = put_rows(rows, key, first);
    lemma_put_then_get(rows, key, first);
    lemma_put_then_get(rows, key, second);
    lemma_put_counts(rows, key, second);
    if first_data(rows, key) is None {
        lemma_absent_in_every_row(rows, key);
    }
    assert(put_rows(once, key, second) =~= put_rows(rows, key, second));
}

/// Two writers that both looked a key up before either wrote: where the
/// key had no row, both insert, and the key has two rows afterwards. A
/// later put replaces the data of both and removes neither.
pub proof fn lemma_interleaved_puts_leave_two_rows(
    rows: Seq<Entry>,
    key: Seq<char>,
    first: Seq<char>,
    second: Seq<char>,
    third: Seq<char>,
)
    requires
        first_data(rows, key) is None,
    ensures
        ({
            let found = first_data(rows, key) is Some;
            let raced = applied(
                applied(rows, upsert_of(found, key, first)),
                upsert_of(found, key, second),
            );
            &&& count_key(raced, key) == 2
            &&& first_data(raced, key) == Some(first)
            &&& count_key(put_rows(raced, key, third), key) == 2
        }),
{
    let once = rows.push(Entry { key, data: first });
    let raced = once.push(Entry { key, data: second });
    lemma_found_iff_counted(rows, key);
    lemma_insert(rows, Entry { key, data: first }, key);
    lemma_insert(once, Entry { key, data: second }, key);
    lemma_put_counts(raced, key, third);
}

/// A put keeps the keys unique.
pub proof fn lemma_put_keeps_keys_unique(rows: Seq<Entry>, key: Seq<char>, data: Seq<char>)
    requires
        unique_keys(rows),
    ensures
        unique_keys(put_rows(rows, key, data)),
{
    assert forall|other: Seq<char>| count_key(put_rows(rows, key, data), other) <= 1 by {
        if other == key {
            lemma_put_counts(rows, key, data);
        } else {
            lemma_put_keeps_other_keys(rows, key, data, other);
        }
    }
}

/// Deleting a key that has no row changes nothing and reports no row.
pub proof fn lemma_delete_absent(rows: Seq<Entry>, key: Seq<char>)
    requires
        first_data(rows, key) is None,
    ensures
        affected(rows, WriteView::Delete { key }) == 0,
        applied(rows, WriteView::Delete { key }) == rows,
{
    lemma_found_iff_counted(rows, key);
    lemma_delete(rows, key, key);
}

/// Deleting a key that has a row reports at least one row, takes as many
/// rows from the table as it reports, and leaves nothing to find under the
/// key.
pub proof fn lemma_delete_present(rows: Seq<Entry>, key: Seq<char>)
    requires
        first_data(rows, key) is Some,
    ensures
        affected(rows, WriteView::Delete { key }) > 0,
        applied(rows, WriteView::Delete { key }).len() + affected(
            rows,
            WriteView::Delete { key },
        ) == rows.len(),
        first_data(applied(rows, WriteView::Delete { key }), key) is None,
        count_key(applied(rows, WriteView::Delete { key }), key) == 0,
{
    lemma_found_iff_counted(rows, key);
    lemma_delete(rows, key, key);
}

/// A delete leaves every other key as it was, and keeps the keys unique.
pub proof fn lemma_delete_keeps_other_keys(rows: Seq<Entry>, key: Seq<char>, other: Seq<char>)
    requires
        other != key,
    ensures
        first_data(without(rows, key), other) == first_data(rows, other),
        count_key(without(rows, key), other) == count_key(rows, other),
        unique_keys(rows) ==> unique_keys(without(rows, key)),
{
    lemma_delete(rows, key, other);
    if unique_keys(rows) {
        assert forall|k: Seq<char>| count_key(without(rows, key), k) <= 1 by {
            lemma_delete(rows, key, k);
        }
    }
}

/// The count of the rows is the length of the list of keys.
pub proof fn lemma_count_is_number_of_keys(rows: Seq<Entry>)
    ensures
        keys_of(rows).len() == rows.len(),
{
}

/// A row held in memory.
pub struct Record {
    pub key: String,
    pub data: String,
}

impl View for Record {
    type V = Entry;

    open spec fn view(&self) -> Entry {
        Entry { key: self.key@, data: self.data@ }
    }
}

/// The rows that a vector of records stands for.
pub open spec fn entries(records: Seq<Record>) -> Seq<Entry> {
    Seq::new(records.len(), |i: int| records[i]@)
}

/// What an optional string holds, as characters.
pub open spec fn text_of(found: Option<String>) -> Option<Seq<char>> {
    match found {
        Some(text) => Some(text@),
        None => None,
    }
}

/// A table held in memory. It does to its rows what the statements of the
/// store say, one statement at a time.
pub struct Table {
    rows: Vec<Record>,
}

impl View for Table {
    type V = Seq<Entry>;

    closed spec fn view(&self) -> Seq<Entry> {
        entries(self.rows@)
    }
}

impl Table {
    /// The empty table.
    pub fn new() -> (table: Table)
        ensures
            table@ == Seq::<Entry>::empty(),
    {
        let table = Table { rows: Vec::new() };
        assert(table@ =~= Seq::<Entry>::empty());
        table
    }

    /// The data of the first row under `key`.
    pub fn get(&self, key: &str) -> (found: Option<String>)
        ensures
            text_of(found) == first_data(self@, key@),
    {
        let wanted = String::from_str(key);
        let mut i: usize = 0;
        while i < self.rows.len()
            invariant
                i <= self.rows.len(),
                wanted@ == key@,
                first_data(self@.take(i as int), key@) is None,
            decreases self.rows.len() - i,
        {
            proof {
                assert(self@.take(i + 1).drop_last() =~= self@.take(i as int));
            }
            if self.rows[i].key == wanted {
                let data = self.rows[i].data.clone();
                proof {
                    lemma_found_in_prefix(self@, i + 1, key@);
                }
                return Some(data);
            }
            i += 1;
        }
        proof {
            assert(self@.take(i as int) =~= self@);
        }
        None
    }

    fn update(&mut self, key: &String, data: &String) -> (changed: usize)
        ensures
            final(self)@ == with_data(old(self)@, key@, data@),
            changed == count_key(old(self)@, key@),
    {
        let mut changed: usize = 0;
        let mut i: usize = 0;
        while i < self.rows.len()
            invariant
                i <= self.rows.len(),
                self.rows.len() == old(self).rows.len(),
                forall|j: int|
                    0 <= j < i ==> #[trigger] self@[j] == with_data(old(self)@, key@, data@)[j],
                forall|j: int| i <= j < self.rows.len() ==> #[trigger] self@[j] == old(self)@[j],
                changed == count_key(old(self)@.take(i as int), key@),
                changed <= i,
            decreases self.rows.len() - i,
        {
            proof {
                assert(old(self)@.take(i + 1).drop_last() =~= old(self)@.take(i as int));
                assert(self@[i as int] == old(self)@[i as int]);
            }
            let ghost before = self@;
            if self.rows[i].key == *key {
                let same = self.rows[i].key.clone();
                self.rows.set(i, Record { key: same, data: data.clone() });
                changed += 1;
            }
            proof {
                assert(self@[i as int] == with_data(old(self)@, key@, data@)[i as int]);
                assert forall|j: int| 0 <= j < self.rows.len() && j != i implies #[trigger] self@[j]
                    == before[j] by {}
            }
            i += 1;
        }
        proof {
            assert(old(self)@.take(i as int) =~= old(self)@);
            assert(self@ =~= with_data(old(self)@, key@, data@));
        }
        changed
    }

    fn remove(&mut self, key: &String) -> (changed: usize)
        ensures
            final(self)@ == without(old(self)@, key@),
            changed == count_key(old(self)@, key@),
    {
        let mut kept: Vec<Record> = Vec::new();
        let mut changed: usize = 0;
        let mut i: usize = 0;
        assert(entries(kept@) =~= without(self@.take(0), key@));
        while i < self.rows.len()
            invariant
                i <= self.rows.len(),
                *self == *old(self),
                entries(kept@) == without(self@.take(i as int), key@),
                changed == count_key(self@.take(i as int), key@),
                changed <= i,
            decreases self.rows.len() - i,
        {
            proof {
                assert(self@.take(i + 1).drop_last() =~= self@.take(i as int));
            }
            if self.rows[i].key == *key {
                changed += 1;
            } else {
                let record = Record {
                    key: self.rows[i].key.clone(),
                    data: self.rows[i].data.clone(),
                };
                let ghost before = entries(kept@);
                kept.push(record);
                proof {
                    assert(entries(kept@) =~= before.push(self@[i as int]));
                }
            }
            i += 1;
        }
        proof {
            assert(self@.take(i as int) =~= self@);
        }
        self.rows = kept;
        changed
    }

    /// Runs one write statement on the table: the number of rows it
    /// changed.
    pub fn apply(&mut self, write: &Write) -> (changed: usize)
        ensures
            final(self)@ == applied(old(self)@, write@),
            changed == affected(old(self)@, write@),
    {
        match write {
            Write::Update { key, data } => self.update(key, data),
            Write::Insert { key, data } => {
                let ghost before = self@;
                self.rows.push(Record { key: key.clone(), data: data.clone() });
                proof {
                    assert(self@ =~= before.push(Entry { key: key@, data: data@ }));
                }
                1
            },
            Write::Delete { key } => self.remove(key),
        }
    }

    /// Stores `data` under `key`: replaces the data of the rows under the
    /// key, or adds a row where there is none. Returns the number of rows
    /// written.
    pub fn put(&mut self, key: &str, data: &str) -> (changed: usize)
        ensures
            final(self)@ == put_rows(old(self)@, key@, data@),
            changed == if count_key(old(self)@, key@) == 0 {
                1
            } else {
                count_key(old(self)@, key@)
            },
    {
        proof {
            lemma_found_iff_counted(self@, key@);
        }
        let existing = self.get(key);
        let write = upsert(&existing, key, data);
        self.apply(&write)
    }

    /// Removes the rows under `key`: their number, 0 where there was none.
    pub fn delete(&mut self, key: &str) -> (changed: usize)
        ensures
            final(self)@ == without(old(self)@, key@),
            changed == count_key(old(self)@, key@),
    {
        let write = removal(key);
        self.apply(&write)
    }

    /// Every key, in the order of the rows.
    pub fn list_keys(&self) -> (keys: Vec<String>)
        ensures
            keys.deep_view() == keys_of(self@),
    {
        let mut keys: Vec<String> = Vec::new();
        let mut i: usize = 0;
        while i < self.rows.len()
            invariant
                i <= self.rows.len(),
                keys@.len() == i,
                forall|j: int| 0 <= j < i ==> keys@[j]@ == self@[j].key,
            decreases self.rows.len() - i,
        {
            keys.push(self.rows[i].key.clone());
            i += 1;
        }
        proof {
            assert(keys.deep_view() =~= keys_of(self@));
        }
        keys
    }

    /// The number of rows.
    pub fn count(&self) -> (count: usize)
        ensures
            count == self@.len(),
    {
        self.rows.len()
    }
}

} // verus!
