//! The boundary to the SQLite binding.
//!
//! Everything here is taken on trust: the types are opaque to the verifier
//! and the functions are thin calls into `rusqlite` whose bodies are not
//! checked. None of them promises anything about its result, because what the
//! database answers depends on the file behind the connection.

use crate::store::task_from_row;
use crate::task::Task;
use rusqlite::types::{FromSql, FromSqlError};
use rusqlite::Error;
use vstd::prelude::*;

verus! {

/// `rusqlite::Connection`, an open database. Opaque.
#[verifier::external_type_specification]
#[verifier::external_body]
pub struct ExConnection(rusqlite::Connection);

/// `rusqlite::Error`, whatever the binding or SQLite reports. Opaque.
#[verifier::external_type_specification]
#[verifier::external_body]
pub struct ExError(rusqlite::Error);

/// `rusqlite::Statement`, a prepared statement tied to its connection. Opaque.
#[verifier::external_type_specification]
#[verifier::external_body]
pub struct ExStatement<'conn>(rusqlite::Statement<'conn>);

/// `rusqlite::Row`, the current row of a running query. Opaque.
#[verifier::external_type_specification]
#[verifier::external_body]
pub struct ExRow<'stmt>(rusqlite::Row<'stmt>);

/// Calls `Connection::execute` with no parameter bound. The call prepares
/// and runs one statement and reports the number of rows changed, or the
/// error; nothing is claimed about either.
#[verifier::external_body]
pub(crate) fn execute(conn: &rusqlite::Connection, sql: &str) -> (outcome: Result<
    usize,
    rusqlite::Error,
>) {
    conn.execute(sql, [])
}

/// Calls `Connection::execute` with `text` bound to the statement's only
/// parameter. Nothing is claimed about the outcome.
#[verifier::external_body]
pub(crate) fn execute_with_text(conn: &rusqlite::Connection, sql: &str, text: &str) -> (outcome:
    Result<usize, rusqlite::Error>) {
    conn.execute(sql, &[text])
}

/// Calls `Connection::execute` with `number` bound to the statement's only
/// parameter. Nothing is claimed about the outcome.
#[verifier::external_body]
pub(crate) fn execute_with_integer(conn: &rusqlite::Connection, sql: &str, number: i32) -> (outcome:
    Result<usize, rusqlite::Error>) {
    conn.execute(sql, &[&number])
}

/// Calls `Connection::prepare`. Nothing is claimed about the outcome.
#[verifier::external_body]
pub(crate) fn prepare<'conn>(conn: &'conn rusqlite::Connection, sql: &str) -> (outcome: Result<
    rusqlite::Statement<'conn>,
    rusqlite::Error,
>) {
    conn.prepare(sql)
}

/// Calls `Statement::query_map` with no parameter bound and gathers what the
/// iterator yields: one entry per row, each decoded by `task_from_row` or
/// failed on its own. Nothing is claimed about how many rows there are or
/// what they hold.
#[verifier::external_body]
pub(crate) fn query_tasks(statement: &mut rusqlite::Statement<'_>) -> (outcome: Result<
    Vec<Result<Task, rusqlite::Error>>,
    rusqlite::Error,
>) {
    let rows = statement.query_map([], task_from_row)?;
    Ok(rows.collect())
}

/// Reads column `index` of the row with `Row::get_ref` and converts it to a
/// 32-bit integer with `FromSql::column_result`. A failed conversion becomes
/// the error that `Row::get` would report, carrying `index`, except that a
/// value of another type is reported without the column's name: looking the
/// name up is what can panic. Nothing is claimed about the outcome.
#[verifier::external_body]
pub(crate) fn column_integer(row: &rusqlite::Row<'_>, index: usize) -> (outcome: Result<
    i32,
    rusqlite::Error,
>) {
    let value = row.get_ref(index)?;
    i32::column_result(value).map_err(|error| match error {
        FromSqlError::OutOfRange(number) => Error::IntegralValueOutOfRange(index, number),
        FromSqlError::Utf8Error(cause) => Error::Utf8Error(index, cause),
        FromSqlError::Other(cause) => {
            Error::FromSqlConversionFailure(index, value.data_type(), cause)
        },
        other => Error::FromSqlConversionFailure(index, value.data_type(), Box::new(other)),
    })
}

/// Reads column `index` of the row with `Row::get_ref` and converts it to a
/// text with `FromSql::column_result`; errors as in `column_integer`.
/// Nothing is claimed about the outcome.
#[verifier::external_body]
pub(crate) fn column_text(row: &rusqlite::Row<'_>, index: usize) -> (outcome: Result<
    String,
    rusqlite::Error,
>) {
    let value = row.get_ref(index)?;
    String::column_result(value).map_err(|error| match error {
        FromSqlError::OutOfRange(number) => Error::IntegralValueOutOfRange(index, number),
        FromSqlError::Utf8Error(cause) => Error::Utf8Error(index, cause),
        FromSqlError::Other(cause) => {
            Error::FromSqlConversionFailure(index, value.data_type(), cause)
        },
        other => Error::FromSqlConversionFailure(index, value.data_type(), Box::new(other)),
    })
}

/// Reads column `index` of the row with `Row::get_ref` and converts it to a
/// 64-bit integer with `FromSql::column_result`; errors as in
/// `column_integer`. Nothing is claimed about the outcome.
#[verifier::external_body]
pub(crate) fn column_flag(row: &rusqlite::Row<'_>, index: usize) -> (outcome: Result<
    i64,
    rusqlite::Error,
>) {
    let value = row.get_ref(index)?;
    i64::column_result(value).map_err(|error| match error {
        FromSqlError::OutOfRange(number) => Error::IntegralValueOutOfRange(index, number),
        FromSqlError::Utf8Error(cause) => Error::Utf8Error(index, cause),
        FromSqlError::Other(cause) => {
            Error::FromSqlConversionFailure(index, value.data_type(), cause)
        },
        other => Error::FromSqlConversionFailure(index, value.data_type(), Box::new(other)),
    })
}

} // verus!
