//! Trusted boundary to the SQLite store.
//!
//! Everything here either declares a `rusqlite` type or wraps one call into
//! `rusqlite` (or `home`). What a statement returns depends on the database
//! file on disk, so no wrapper promises anything about the values that come
//! back; the verified callers state what they produce for every outcome.

use vstd::prelude::*;
use crate::format::IdNameDate;

verus! {

#[verifier::external_type_specification]
#[verifier::external_body]
pub struct ExConnection(rusqlite::Connection);

#[verifier::external_type_specification]
#[verifier::external_body]
pub struct ExRusqliteError(rusqlite::Error);

/// Relies on home::home_dir: the path of `file` inside the user's home
/// directory, or `file` alone (relative to the working directory) when no
/// home directory is reported.
#[verifier::external_body]
pub(crate) fn home_joined_path(file: &str) -> (r: String) {
    match home::home_dir() {
        Some(dir) => dir.join(file).to_string_lossy().into_owned(),
        None => file.to_owned(),
    }
}

/// Relies on rusqlite::Connection::open: opens (creating it if needed) the
/// SQLite database file at `path`.
#[verifier::external_body]
pub(crate) fn open_db(path: &str) -> (r: Result<rusqlite::Connection, rusqlite::Error>) {
    rusqlite::Connection::open(path)
}

/// Relies on rusqlite::Connection::execute: runs one parameterless SQL
/// statement; `Ok` carries the number of rows changed.
#[verifier::external_body]
pub(crate) fn exec_sql(conn: &rusqlite::Connection, sql: &str) -> (r: Result<
    usize,
    rusqlite::Error,
>) {
    conn.execute(sql, [])
}

/// Relies on rusqlite::Connection::execute: runs one SQL statement with a
/// single text value bound to `?1`.
#[verifier::external_body]
pub(crate) fn exec_sql_one_param(conn: &rusqlite::Connection, sql: &str, p1: &str) -> (r: Result<
    usize,
    rusqlite::Error,
>) {
    conn.execute(sql, [p1])
}

/// Relies on rusqlite::Connection::execute: runs one SQL statement with two
/// text values bound to `?1` and `?2`.
#[verifier::external_body]
pub(crate) fn exec_sql_two_params(
    conn: &rusqlite::Connection,
    sql: &str,
    p1: &str,
    p2: &str,
) -> (r: Result<usize, rusqlite::Error>) {
    conn.execute(sql, [p1, p2])
}

/// Relies on rusqlite::Connection::last_insert_rowid: the rowid written by
/// the most recent successful insert on this connection.
#[verifier::external_body]
pub(crate) fn last_insert_rowid(conn: &rusqlite::Connection) -> (r: i64) {
    conn.last_insert_rowid()
}

/// Relies on rusqlite Connection::prepare, Statement::query_map and
/// Row::get: runs a query selecting rows of an integer, a text, and a third
/// column that becomes `None` when it is null or not readable as text.
#[verifier::external_body]
pub(crate) fn query_task_rows(conn: &rusqlite::Connection, sql: &str) -> (r: Result<
    Vec<IdNameDate>,
    rusqlite::Error,
>) {
    let mut stmt = conn.prepare(sql)?;
    let rows = stmt.query_map([], |row| {
        let due: Result<String, rusqlite::Error> = row.get(2);
        Ok(IdNameDate { x1: row.get(0)?, x2: row.get(1)?, x3: due.ok() })
    })?;
    let mut out = Vec::new();
    for row in rows {
        out.push(row?);
    }
    Ok(out)
}

/// Relies on rusqlite::Connection::query_row and Row::get: runs a query and
/// returns the first column of its first row as an integer.
#[verifier::external_body]
pub(crate) fn query_single_i64(conn: &rusqlite::Connection, sql: &str) -> (r: Result<
    i64,
    rusqlite::Error,
>) {
    conn.query_row(sql, [], |row| row.get(0))
}

} // verus!
