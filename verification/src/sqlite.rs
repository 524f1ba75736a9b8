//! The boundary to the connection pool and to SQLite.
//!
//! Nothing in this module is proved. The types are opaque and each function
//! states only what the called crate's source shows of it: what a statement
//! finds in the table, or does to it, is decided by SQLite and stated
//! nowhere.

use crate::statement::Statement;
use r2d2::{Pool, PooledConnection};
use r2d2_sqlite::SqliteConnectionManager;
use rusqlite::blob::Blob;
use vstd::prelude::*;

verus! {

/// `rusqlite::Error`: why a statement failed.
#[verifier::external_type_specification]
#[verifier::external_body]
pub struct ExSqliteError(rusqlite::Error);

/// `r2d2::Error`: why the pool handed out no connection.
#[verifier::external_type_specification]
#[verifier::external_body]
pub struct ExPoolError(r2d2::Error);

/// A pool of connections to one SQLite database: an
/// `r2d2::Pool<SqliteConnectionManager>`, which hands its connections out
/// one at a time and takes them back when they are dropped.
///
/// The pool's type is bound by a trait of r2d2, which Verus does not know,
/// so the pool is held in a struct that Verus does not look into. To pass
/// a pool to the storage, wrap it: `ConnectionPool(pool)`.
#[verifier::external_body]
pub struct ConnectionPool(pub Pool<SqliteConnectionManager>);

/// One connection out of the pool, an
/// `r2d2::PooledConnection<SqliteConnectionManager>`, held until it is
/// dropped. It is kept from Verus as the pool is.
#[verifier::external_body]
pub struct SqliteConnection(PooledConnection<SqliteConnectionManager>);

/// `rusqlite::blob::Blob`: an open handle on the content of one row.
#[verifier::external_type_specification]
#[verifier::external_body]
pub struct ExBlob<'conn>(Blob<'conn>);

/// `r2d2::Pool::get`: waits for a connection, at most for the pool's
/// timeout. Which way it ends depends on the pool alone, so nothing is
/// promised. r2d2 adds the timeout to the present instant, as it does
/// when a pool is built and checked: only a pool that was built unchecked,
/// with a timeout longer than the clock can count, fails in that sum.
#[verifier::external_body]
pub(crate) fn checkout(pool: &ConnectionPool) -> (conn: Result<SqliteConnection, r2d2::Error>) {
    pool.0.get().map(SqliteConnection)
}

/// `rusqlite::Connection::execute`: runs one statement that returns no rows,
/// with its values bound in order as blobs, and gives the number of rows
/// that it changed. A statement that SQLite refuses is an `Err`.
#[verifier::external_body]
pub(crate) fn execute(
    conn: &SqliteConnection,
    statement: &Statement<'_>,
) -> (changed: Result<usize, rusqlite::Error>) {
    conn.0.execute(statement.sql, rusqlite::params_from_iter(statement.params.iter()))
}

/// `rusqlite::Connection::query_row`, reading column 0 of the first row as
/// an `i32`. No row at all is an `Err`, which [`optional`] tells apart.
#[verifier::external_body]
pub(crate) fn query_flag(
    conn: &SqliteConnection,
    statement: &Statement<'_>,
) -> (found: Result<i32, rusqlite::Error>) {
    conn.0.query_row(
        statement.sql,
        rusqlite::params_from_iter(statement.params.iter()),
        |row| row.get(0),
    )
}

/// `rusqlite::Connection::query_row`, reading column 0 of the first row as
/// bytes. No row at all is an `Err`, which [`optional`] tells apart.
#[verifier::external_body]
pub(crate) fn query_bytes(
    conn: &SqliteConnection,
    statement: &Statement<'_>,
) -> (found: Result<Vec<u8>, rusqlite::Error>) {
    conn.0.query_row(
        statement.sql,
        rusqlite::params_from_iter(statement.params.iter()),
        |row| row.get(0),
    )
}

/// `rusqlite::Connection::query_row`, reading column 0 of the first row as
/// an `i64` and column 1 as a `usize`. No row at all is an `Err`, which
/// [`optional`] tells apart.
#[verifier::external_body]
pub(crate) fn query_id_and_size(
    conn: &SqliteConnection,
    statement: &Statement<'_>,
) -> (found: Result<(i64, usize), rusqlite::Error>) {
    conn.0.query_row(
        statement.sql,
        rusqlite::params_from_iter(statement.params.iter()),
        |row| Ok((row.get(0)?, row.get(1)?)),
    )
}

/// `rusqlite::OptionalExtension::optional`: a row that was found stays
/// found; of the errors, the one that says "no row" becomes `Ok(None)` and
/// every other stays as it is.
#[verifier::external_body]
pub(crate) fn optional<T>(found: Result<T, rusqlite::Error>) -> (row: Result<
    Option<T>,
    rusqlite::Error,
>)
    ensures
        found matches Ok(v) ==> row is Ok && row->Ok_0 == Some(v),
        found matches Err(e) ==> (row is Ok && row->Ok_0 is None) || (row is Err && row->Err_0
            == e),
{
    rusqlite::OptionalExtension::optional(found)
}

/// `rusqlite::Connection::blob_open` on the main database, for reading or
/// for reading and writing: opens the content of the row `row_id` in one
/// column of one table. Whether there is such a row is SQLite's to say.
#[verifier::external_body]
pub(crate) fn open_blob<'a>(
    conn: &'a SqliteConnection,
    table: &str,
    column: &str,
    row_id: i64,
    read_only: bool,
) -> (blob: Result<Blob<'a>, rusqlite::Error>) {
    conn.0.blob_open(rusqlite::DatabaseName::Main, table, column, row_id, read_only)
}

/// `rusqlite::blob::Blob::read_at_exact`: fills the whole of `buf` with the
/// bytes of the blob from offset `start` on, or fails where the blob has
/// too few. It writes into `buf` in place, so the length stays. With
/// debug assertions on, rusqlite panics on a buffer that is longer than
/// an `i32` can say and a blob that has bytes at `start`: such a buffer
/// is not to be passed.
#[verifier::external_body]
pub(crate) fn read_blob_at(blob: &Blob<'_>, buf: &mut Vec<u8>, start: usize) -> (read: Result<
    (),
    rusqlite::Error,
>)
    requires
        old(buf)@.len() <= i32::MAX,
    ensures
        final(buf)@.len() == old(buf)@.len(),
{
    blob.read_at_exact(buf, start)
}

/// `rusqlite::Error::BlobSizeError`: the error of `read_at_exact` for a
/// blob that has too few bytes.
#[verifier::external_body]
pub(crate) fn blob_size_error() -> (e: rusqlite::Error) {
    rusqlite::Error::BlobSizeError
}

} // verus!
