//! The calls into `rusqlite`. Nothing here is proved: each contract is taken
//! on trust from the outside crate. What a call returns depends on the
//! database behind the connection, so none of them promises a result; only
//! the text of an error is given a name.

use vstd::prelude::*;

verus! {

#[verifier::external_type_specification]
#[verifier::external_body]
pub struct ExConnection(rusqlite::Connection);

#[verifier::external_type_specification]
#[verifier::external_body]
pub struct ExStatement<'conn>(rusqlite::Statement<'conn>);

#[verifier::external_type_specification]
#[verifier::external_body]
pub struct ExRows<'stmt>(rusqlite::Rows<'stmt>);

#[verifier::external_type_specification]
#[verifier::external_body]
pub struct ExRow<'stmt>(rusqlite::Row<'stmt>);

#[verifier::external_type_specification]
#[verifier::external_body]
pub struct ExError(rusqlite::Error);

/// `rusqlite::Connection::prepare`: compiles one statement, or reports why
/// it could not.
#[verifier::external_body]
pub(crate) fn prepare<'conn>(conn: &'conn rusqlite::Connection, sql: &str) -> (prepared: Result<
    rusqlite::Statement<'conn>,
    rusqlite::Error,
>) {
    conn.prepare(sql)
}

/// `rusqlite::Statement::query`: binds `params` by position and hands out
/// the rows, not yet stepped; fails where the parameters do not fit the
/// statement.
#[verifier::external_body]
pub(crate) fn query<'stmt>(stmt: &'stmt mut rusqlite::Statement<'_>, params: &[&str]) -> (rows:
    Result<rusqlite::Rows<'stmt>, rusqlite::Error>) {
    stmt.query(rusqlite::params_from_iter(params.iter()))
}

/// `rusqlite::Rows::next`: steps to the next row; `Ok(None)` once there is
/// none.
#[verifier::external_body]
pub(crate) fn next_row<'rows, 'stmt>(rows: &'rows mut rusqlite::Rows<'stmt>) -> (row: Result<
    Option<&'rows rusqlite::Row<'stmt>>,
    rusqlite::Error,
>) {
    rows.next()
}

/// `rusqlite::Row::get` at `String`: the column as text; fails where the
/// index is out of range or the column holds no text.
#[verifier::external_body]
pub(crate) fn column_text(row: &rusqlite::Row<'_>, index: usize) -> (text: Result<
    String,
    rusqlite::Error,
>) {
    row.get(index)
}

/// `rusqlite::Row::get` at `i64`: the column as an integer; fails where the
/// index is out of range or the column holds no integer.
#[verifier::external_body]
pub(crate) fn column_integer(row: &rusqlite::Row<'_>, index: usize) -> (number: Result<
    i64,
    rusqlite::Error,
>) {
    row.get(index)
}

/// `rusqlite::Connection::execute`: prepares and runs one statement with
/// `params` bound by position; on success the number of rows that SQLite
/// reports as changed.
#[verifier::external_body]
pub(crate) fn execute(conn: &rusqlite::Connection, sql: &str, params: &[&str]) -> (changed: Result<
    usize,
    rusqlite::Error,
>) {
    conn.execute(sql, rusqlite::params_from_iter(params.iter()))
}

/// The words in which `rusqlite` describes an error.
pub uninterp spec fn error_text(error: rusqlite::Error) -> Seq<char>;

/// `rusqlite::Error`'s `Display`, through `to_string`: the failure in
/// words. The text depends on the error alone; which text it is, is not
/// stated.
#[verifier::external_body]
pub(crate) fn describe(error: &rusqlite::Error) -> (message: String)
    ensures
        message@ == error_text(*error),
{
    error.to_string()
}

} // verus!
