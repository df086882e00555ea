//! The persistence layer: one table `kv` of keys and their data, reached
//! through a `rusqlite` connection.

use crate::sqlite::{
    column_integer, column_text, describe, error_text, execute, next_row, prepare, query,
};
use vstd::prelude::*;

verus! {

/// A failure of the storage engine, in its own words.
#[derive(Debug)]
pub struct StoreError {
    pub message: String,
}

/// A failure whose message is the text of an error of the engine. The
/// engine words its errors as it likes, so this says where a message comes
/// from and not what it holds.
pub open spec fn from_engine(failed: StoreError) -> bool {
    exists|error: rusqlite::Error| failed.message@ == #[trigger] error_text(error)
}

/// What a failed count says where the engine raised nothing: the query
/// brought no row, or a number that is no count.
pub const NO_COUNT: &'static str = "no row count";

/// The name of the table.
pub const TABLE: &'static str = "kv";

/// The file that holds the database.
pub const DATABASE_FILE: &'static str = "kv.db";

/// The most connections that are open to the database at one time.
pub const MAX_CONNECTIONS: u32 = 15;

/// Creates the table.
pub const CREATE_TABLE: &'static str =
    "CREATE TABLE kv (id INTEGER PRIMARY KEY, key TEXT NOT NULL, data TEXT)";

/// Creates the index by which a key is looked up.
pub const CREATE_INDEX: &'static str = "create index kv_key_index on kv (key);";

/// Selects the data of the rows under the key `?1`.
pub const SELECT_DATA: &'static str = "SELECT data FROM kv WHERE key = ?1";

/// Selects the key of every row.
pub const SELECT_KEYS: &'static str = "SELECT key FROM kv";

/// Counts the rows.
pub const COUNT_ROWS: &'static str = "SELECT count(*) FROM kv";

/// Puts the data `?1` into every row under the key `?2`.
pub const UPDATE_DATA: &'static str = "UPDATE kv SET data = ?1 WHERE key = ?2";

/// Adds a row with the key `?1` and the data `?2`.
pub const INSERT_ROW: &'static str = "INSERT INTO kv (key, data) VALUES (?1, ?2)";

/// Removes every row under the key `?1`.
pub const DELETE_ROWS: &'static str = "DELETE FROM kv WHERE key = ?1";

/// A statement that reads the table, with the values bound to it.
pub enum Read {
    /// The data of the rows under `key`.
    Data { key: String },
    /// The key of every row.
    Keys,
    /// The number of rows.
    Count,
}

/// A [`Read`] with its strings as sequences of characters.
pub ghost enum ReadView {
    Data { key: Seq<char> },
    Keys,
    Count,
}

impl View for Read {
    type V = ReadView;

    open spec fn view(&self) -> ReadView {
        match self {
            Read::Data { key } => ReadView::Data { key: key@ },
            Read::Keys => ReadView::Keys,
            Read::Count => ReadView::Count,
        }
    }
}

/// The text of a reading statement. It does not depend on the key: the key
/// is bound to the statement, never written into it.
pub open spec fn read_sql_of(read: ReadView) -> Seq<char> {
    match read {
        ReadView::Data { .. } => SELECT_DATA@,
        ReadView::Keys => SELECT_KEYS@,
        ReadView::Count => COUNT_ROWS@,
    }
}

/// The values bound to the parameters of a reading statement.
pub open spec fn read_params_of(read: ReadView) -> Seq<Seq<char>> {
    match read {
        ReadView::Data { key } => seq![key],
        ReadView::Keys => seq![],
        ReadView::Count => seq![],
    }
}

impl Read {
    /// The text of the statement.
    pub fn sql(&self) -> (text: &'static str)
        ensures
            text@ == read_sql_of(self@),
    {
        match self {
            Read::Data { .. } => SELECT_DATA,
            Read::Keys => SELECT_KEYS,
            Read::Count => COUNT_ROWS,
        }
    }

    /// The values to bind to the statement, in the order of its
    /// parameters.
    pub fn params(&self) -> (bound: Vec<&str>)
        ensures
            bound@.len() == read_params_of(self@).len(),
            forall|i: int| 0 <= i < bound@.len() ==> bound@[i]@ == read_params_of(self@)[i],
    {
        match self {
            Read::Data { key } => vec![key.as_str()],
            Read::Keys => Vec::new(),
            Read::Count => Vec::new(),
        }
    }
}

/// The statement that reads what is stored under `key`.
pub fn selection(key: &str) -> (read: Read)
    ensures
        read@ == (ReadView::Data { key: key@ }),
{
    Read::Data { key: String::from_str(key) }
}

/// The statements that set the schema up, given whether the table was seen:
/// none where it was, else the one that creates the table and then the one
/// that creates the index.
pub open spec fn schema_writes_of(seen: bool) -> Seq<Seq<char>> {
    if seen {
        seq![]
    } else {
        seq![CREATE_TABLE@, CREATE_INDEX@]
    }
}

/// The statements to run to set the schema up, in their order.
pub fn schema_writes(seen: bool) -> (writes: Vec<&'static str>)
    ensures
        writes@.len() == schema_writes_of(seen).len(),
        forall|i: int| 0 <= i < writes@.len() ==> writes@[i]@ == schema_writes_of(seen)[i],
{
    if seen {
        Vec::new()
    } else {
        vec![CREATE_TABLE, CREATE_INDEX]
    }
}

/// What one step of a listing brought.
pub enum Step {
    /// A row, with its key.
    Key(String),
    /// A row whose key could not be read as text.
    Unreadable,
    /// No row: the rows are through, or the step failed.
    End,
}

/// What a step of a listing brought, from what the engine handed out: the
/// outcome of the step, and inside it that of reading the key.
pub fn step_of(stepped: Result<Option<Result<String, StoreError>>, StoreError>) -> (step: Step)
    ensures
        step == match stepped {
            Ok(Some(Ok(key))) => Step::Key(key),
            Ok(Some(Err(_))) => Step::Unreadable,
            _ => Step::End,
        },
{
    match stepped {
        Ok(Some(Ok(key))) => Step::Key(key),
        Ok(Some(Err(_))) => Step::Unreadable,
        _ => Step::End,
    }
}

/// Takes one step into a listing: a key is added at the end, an unreadable
/// row is passed over, and the end of the rows adds nothing. Returns
/// whether the listing goes on.
pub fn list_step(keys: &mut Vec<String>, step: Step) -> (more: bool)
    ensures
        more == !(step is End),
        final(keys)@ == match step {
            Step::Key(key) => old(keys)@.push(key),
            _ => old(keys)@,
        },
{
    match step {
        Step::Key(key) => {
            keys.push(key);
            true
        },
        Step::Unreadable => true,
        Step::End => false,
    }
}

/// A statement that changes the table, with the values bound to it.
pub enum Write {
    /// Replaces the data of every row under `key`.
    Update { key: String, data: String },
    /// Appends one row.
    Insert { key: String, data: String },
    /// Removes every row under `key`.
    Delete { key: String },
}

/// A [`Write`] with its strings as sequences of characters.
pub ghost enum WriteView {
    Update { key: Seq<char>, data: Seq<char> },
    Insert { key: Seq<char>, data: Seq<char> },
    Delete { key: Seq<char> },
}

impl View for Write {
    type V = WriteView;

    open spec fn view(&self) -> WriteView {
        match self {
            Write::Update { key, data } => WriteView::Update { key: key@, data: data@ },
            Write::Insert { key, data } => WriteView::Insert { key: key@, data: data@ },
            Write::Delete { key } => WriteView::Delete { key: key@ },
        }
    }
}

/// The text of a statement.
pub open spec fn sql_of(write: WriteView) -> Seq<char> {
    match write {
        WriteView::Update { .. } => UPDATE_DATA@,
        WriteView::Insert { .. } => INSERT_ROW@,
        WriteView::Delete { .. } => DELETE_ROWS@,
    }
}

/// The values bound to `?1`, `?2` of a statement, in that order.
pub open spec fn params_of(write: WriteView) -> Seq<Seq<char>> {
    match write {
        WriteView::Update { key, data } => seq![data, key],
        WriteView::Insert { key, data } => seq![key, data],
        WriteView::Delete { key } => seq![key],
    }
}

/// The statement that stores `data` under `key`: an update where a lookup
/// of `key` found a row, an insert where it found none.
pub open spec fn upsert_of(found: bool, key: Seq<char>, data: Seq<char>) -> WriteView {
    if found {
        WriteView::Update { key, data }
    } else {
        WriteView::Insert { key, data }
    }
}

impl Write {
    /// The text of the statement.
    pub fn sql(&self) -> (text: &'static str)
        ensures
            text@ == sql_of(self@),
    {
        match self {
            Write::Update { .. } => UPDATE_DATA,
            Write::Insert { .. } => INSERT_ROW,
            Write::Delete { .. } => DELETE_ROWS,
        }
    }

    /// The values to bind to the statement, in the order of its
    /// parameters.
    pub fn params(&self) -> (bound: Vec<&str>)
        ensures
            bound@.len() == params_of(self@).len(),
            forall|i: int| 0 <= i < bound@.len() ==> bound@[i]@ == params_of(self@)[i],
    {
        match self {
            Write::Update { key, data } => vec![data.as_str(), key.as_str()],
            Write::Insert { key, data } => vec![key.as_str(), data.as_str()],
            Write::Delete { key } => vec![key.as_str()],
        }
    }
}

/// The statement that stores `data` under `key`, given what a lookup of
/// `key` returned.
pub fn upsert(existing: &Option<String>, key: &str, data: &str) -> (write: Write)
    ensures
        write@ == upsert_of(existing is Some, key@, data@),
{
    let key = String::from_str(key);
    let data = String::from_str(data);
    match existing {
        Some(_) => Write::Update { key, data },
        None => Write::Insert { key, data },
    }
}

/// The statement that removes what is stored under `key`.
pub fn removal(key: &str) -> (write: Write)
    ensures
        write@ == (WriteView::Delete { key: key@ }),
{
    Write::Delete { key: String::from_str(key) }
}

/// A lookup with its failures folded away: a value only where the lookup
/// succeeded and found one.
pub fn found_or_absent(outcome: Result<Option<String>, StoreError>) -> (found: Option<String>)
    ensures
        found == match outcome {
            Ok(Some(data)) => Some(data),
            _ => None::<String>,
        },
{
    match outcome {
        Ok(Some(data)) => Some(data),
        _ => None,
    }
}

/// The statement that asks the schema whether a table `name` is there.
/// `name` is put between quotes as it is.
pub open spec fn table_query_of(name: Seq<char>) -> Seq<char> {
    "SELECT name FROM sqlite_master WHERE type='table' AND name='"@ + name + "'"@
}

/// The schema query for the table `name`.
pub fn table_query(name: &str) -> (text: String)
    ensures
        text@ == table_query_of(name@),
{
    let mut text = String::from_str("SELECT name FROM sqlite_master WHERE type='table' AND name='");
    text.append(name);
    text.append("'");
    text
}

/// What a first step of the schema query says of the table: it is taken to
/// be missing only where the step succeeded and brought no row.
pub fn table_seen(stepped: &Result<bool, StoreError>) -> (seen: bool)
    ensures
        seen == match *stepped {
            Ok(row) => row,
            Err(_) => true,
        },
{
    match stepped {
        Ok(row) => *row,
        Err(_) => true,
    }
}

/// A row count as SQLite hands it out, as a `usize`; `None` where it is
/// negative or too large for one.
pub fn row_count(number: i64) -> (count: Option<usize>)
    ensures
        count is Some <==> 0 <= number <= usize::MAX,
        count matches Some(n) ==> n == number,
{
    if number >= 0 && number as u64 <= usize::MAX as u64 {
        Some(number as usize)
    } else {
        None
    }
}

/// The count that a counting query gave, from what the engine handed out:
/// the outcome of the step, and inside it that of reading the number. A
/// failure of the engine is handed on. Where no row came, or a number that
/// is no count, the failure says so with `NO_COUNT`.
pub fn count_of(stepped: Result<Option<Result<i64, StoreError>>, StoreError>) -> (count: Result<
    usize,
    StoreError,
>)
    ensures
        match stepped {
            Ok(Some(Ok(number))) => if 0 <= number <= usize::MAX {
                count == Ok::<usize, StoreError>(number as usize)
            } else {
                count matches Err(failed) && failed.message@ == NO_COUNT@
            },
            Ok(Some(Err(failed))) => count == Err::<usize, StoreError>(failed),
            Ok(None) => count matches Err(failed) && failed.message@ == NO_COUNT@,
            Err(failed) => count == Err::<usize, StoreError>(failed),
        },
{
    match stepped {
        Ok(Some(Ok(number))) => match row_count(number) {
            Some(count) => Ok(count),
            None => Err(StoreError { message: String::from_str(NO_COUNT) }),
        },
        Ok(Some(Err(failed))) => Err(failed),
        Ok(None) => Err(StoreError { message: String::from_str(NO_COUNT) }),
        Err(failed) => Err(failed),
    }
}

/// The failure that stands for an error of the engine.
fn failure(error: &rusqlite::Error) -> (failed: StoreError)
    ensures
        failed.message@ == error_text(*error),
        from_engine(failed),
{
    StoreError { message: describe(error) }
}

/// Runs `sql` with `params` and steps once: whether a row came. A failure
/// of the step is told apart from one before it; either is the engine's.
fn first_step(conn: &rusqlite::Connection, sql: &str, params: &[&str]) -> (stepped: Result<
    Result<bool, StoreError>,
    StoreError,
>)
    ensures
        stepped matches Err(failed) ==> from_engine(failed),
        stepped matches Ok(Err(failed)) ==> from_engine(failed),
{
    match prepare(conn, sql) {
        Err(e) => Err(failure(&e)),
        Ok(mut stmt) => match query(&mut stmt, params) {
            Err(e) => Err(failure(&e)),
            Ok(mut rows) => match next_row(&mut rows) {
                Err(e) => Ok(Err(failure(&e))),
                Ok(None) => Ok(Ok(false)),
                Ok(Some(_)) => Ok(Ok(true)),
            },
        },
    }
}

/// Whether the schema holds a table `name`. A failure to prepare or bind
/// the query is reported; one of the step counts as the table being there.
pub fn check_if_table_exists(conn: &rusqlite::Connection, name: &str) -> (exists: Result<
    bool,
    StoreError,
>)
    ensures
        exists matches Err(failed) ==> from_engine(failed),
{
    let text = table_query(name);
    let none: [&str; 0] = [];
    match first_step(conn, text.as_str(), &none) {
        Err(e) => Err(e),
        Ok(stepped) => Ok(table_seen(&stepped)),
    }
}

/// Creates the table and its index on the key, unless the table is there.
/// The first failure of the engine ends the work and is handed on.
pub fn create_schema(conn: &rusqlite::Connection) -> (done: Result<(), StoreError>)
    ensures
        done matches Err(failed) ==> from_engine(failed),
{
    match check_if_table_exists(conn, TABLE) {
        Err(e) => Err(e),
        Ok(seen) => {
            let writes = schema_writes(seen);
            let none: [&str; 0] = [];
            let mut i: usize = 0;
            while i < writes.len()
                invariant
                    i <= writes.len(),
                decreases writes.len() - i,
            {
                match execute(conn, writes[i], &none) {
                    Err(e) => {
                        return Err(failure(&e));
                    },
                    Ok(_) => {},
                }
                i += 1;
            }
            Ok(())
        },
    }
}

/// Runs one write statement: the number of rows that the engine reports
/// as changed, or the engine's failure.
pub fn run(conn: &rusqlite::Connection, write: &Write) -> (changed: Result<usize, StoreError>)
    ensures
        changed matches Err(failed) ==> from_engine(failed),
{
    let bound = write.params();
    match execute(conn, write.sql(), bound.as_slice()) {
        Ok(n) => Ok(n),
        Err(e) => Err(failure(&e)),
    }
}

/// The data of the first row under `key` that the engine hands out, with
/// every failure told apart from a missing row.
pub fn lookup(conn: &rusqlite::Connection, key: &str) -> (outcome: Result<
    Option<String>,
    StoreError,
>)
    ensures
        outcome matches Err(failed) ==> from_engine(failed),
{
    let read = selection(key);
    match prepare(conn, read.sql()) {
        Err(e) => Err(failure(&e)),
        Ok(mut stmt) => {
            let bound = read.params();
            match query(&mut stmt, bound.as_slice()) {
                Err(e) => Err(failure(&e)),
                Ok(mut rows) => match next_row(&mut rows) {
                    Err(e) => Err(failure(&e)),
                    Ok(None) => Ok(None),
                    Ok(Some(row)) => match column_text(row, 0) {
                        Err(e) => Err(failure(&e)),
                        Ok(data) => Ok(Some(data)),
                    },
                },
            }
        },
    }
}

/// The data stored under `key`. A failure of the lookup is not told from a
/// missing key.
pub fn get_data(conn: &rusqlite::Connection, key: &str) -> (found: Option<String>) {
    found_or_absent(lookup(conn, key))
}

/// Stores `data` under `key`: looks the key up, then updates the rows found
/// or inserts a new one. The two statements are not one transaction. A
/// failure of the write is handed on; one of the lookup counts as no row.
pub fn put_data(conn: &rusqlite::Connection, key: &str, data: &str) -> (changed: Result<
    usize,
    StoreError,
>)
    ensures
        changed matches Err(failed) ==> from_engine(failed),
{
    let existing = get_data(conn, key);
    let write = upsert(&existing, key, data);
    run(conn, &write)
}

/// Removes the rows under `key`: their number, 0 where there was none, or
/// the engine's failure.
pub fn delete_data(conn: &rusqlite::Connection, key: &str) -> (changed: Result<
    usize,
    StoreError,
>)
    ensures
        changed matches Err(failed) ==> from_engine(failed),
{
    let write = removal(key);
    run(conn, &write)
}

/// Steps to the next row and reads its key: the outcome of the step, and
/// inside it that of the reading.
fn next_key(rows: &mut rusqlite::Rows<'_>) -> (stepped: Result<
    Option<Result<String, StoreError>>,
    StoreError,
>) {
    match next_row(rows) {
        Err(e) => Err(failure(&e)),
        Ok(None) => Ok(None),
        Ok(Some(row)) => match column_text(row, 0) {
            Ok(key) => Ok(Some(Ok(key))),
            Err(e) => Ok(Some(Err(failure(&e)))),
        },
    }
}

/// Every key in the table, in the order in which the engine hands the rows
/// out. A row whose key cannot be read as text is left out, and a failed
/// step ends the listing. No more than `usize::MAX` rows are stepped
/// through. Only a failure to prepare or bind the query is reported.
pub fn get_all_keys(conn: &rusqlite::Connection) -> (keys: Result<Vec<String>, StoreError>)
    ensures
        keys matches Err(failed) ==> from_engine(failed),
{
    let read = Read::Keys;
    match prepare(conn, read.sql()) {
        Err(e) => Err(failure(&e)),
        Ok(mut stmt) => {
            let bound = read.params();
            match query(&mut stmt, bound.as_slice()) {
                Err(e) => Err(failure(&e)),
                Ok(mut rows) => {
                    let mut keys: Vec<String> = Vec::new();
                    let mut more = true;
                    let mut steps_left: usize = usize::MAX;
                    while more && steps_left > 0
                        decreases steps_left,
                    {
                        steps_left = steps_left - 1;
                        let step = step_of(next_key(&mut rows));
                        more = list_step(&mut keys, step);
                    }
                    Ok(keys)
                },
            }
        },
    }
}

/// Runs a reading statement, steps once and reads the first column as an
/// integer: the outcome of the step, and inside it that of the reading.
fn first_integer(conn: &rusqlite::Connection, read: &Read) -> (stepped: Result<
    Option<Result<i64, StoreError>>,
    StoreError,
>)
    ensures
        stepped matches Err(failed) ==> from_engine(failed),
        stepped matches Ok(Some(Err(failed))) ==> from_engine(failed),
{
    match prepare(conn, read.sql()) {
        Err(e) => Err(failure(&e)),
        Ok(mut stmt) => {
            let bound = read.params();
            match query(&mut stmt, bound.as_slice()) {
                Err(e) => Err(failure(&e)),
                Ok(mut rows) => match next_row(&mut rows) {
                    Err(e) => Err(failure(&e)),
                    Ok(None) => Ok(None),
                    Ok(Some(row)) => match column_integer(row, 0) {
                        Err(e) => Ok(Some(Err(failure(&e)))),
                        Ok(number) => Ok(Some(Ok(number))),
                    },
                },
            }
        },
    }
}

/// The number of rows in the table. It fails where the engine does, and
/// where the query brings no row or a number that is no count.
pub fn count_keys(conn: &rusqlite::Connection) -> (count: Result<usize, StoreError>)
    ensures
        count matches Err(failed) ==> from_engine(failed) || failed.message@ == NO_COUNT@,
{
    count_of(first_integer(conn, &Read::Count))
}

} // verus!
