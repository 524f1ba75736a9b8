//! The table of files: one statement per operation, and what its answer
//! means.
//!
//! Each operation takes a connection from the pool, runs one statement and
//! turns the statement's answer into the operation's result. The statements
//! are SQLite's to run, so nothing here says what the table holds; what is
//! proved is the second step, for every answer that SQLite may give, in the
//! functions whose names end in `_outcome`. A read of a part of a file is
//! no statement: what it asks of SQLite is made by [`blob_read`].

use crate::error::TantivySqliteStorageError;
use crate::sqlite::{
    blob_size_error, checkout, execute, open_blob, optional, query_bytes, query_flag,
    query_id_and_size, read_blob_at, ConnectionPool, SqliteConnection,
};
use crate::statement::{
    create_statement, delete_statement, exists_statement, init_statement, locate_statement,
    read_statement, write_statement,
};
use std::ops::Range;
use tantivy::directory::{WatchCallback, WatchCallbackList, WatchHandle};
use tantivy::FutureResult;
use vstd::prelude::*;
use vstd::slice::slice_to_vec;

verus! {

/// The name of the metadata file, `meta.json`, as bytes.
pub open spec fn meta_name() -> Seq<u8> {
    seq![109u8, 101u8, 116u8, 97u8, 46u8, 106u8, 115u8, 111u8, 110u8]
}

/// Whether `name` is the metadata file, byte for byte.
pub fn is_meta_name(name: &[u8]) -> (yes: bool)
    ensures
        yes == (name@ == meta_name()),
{
    let yes = name.len() == 9 && name[0] == 109 && name[1] == 101 && name[2] == 116 && name[3]
        == 97 && name[4] == 46 && name[5] == 106 && name[6] == 115 && name[7] == 111 && name[8]
        == 110;
    assert(yes ==> name@ =~= meta_name());
    yes
}

/// The size that no content exceeds: SQLite counts the bytes of a value
/// in 31 bits.
pub const MAX_CONTENT_LEN: usize = 0x7fff_ffff;

/// How many bytes a read of `range` asks for: none where the range ends
/// before it starts.
pub open spec fn range_len(range: Range<usize>) -> nat {
    if range.start <= range.end {
        (range.end - range.start) as nat
    } else {
        0
    }
}

/// The table that holds the files.
pub open spec fn content_table() -> Seq<char> {
    "tantivy_blobs"@
}

/// The column that holds a file's content.
pub open spec fn content_column() -> Seq<char> {
    "content"@
}

/// One read of a part of a file's content, as it is asked of SQLite.
pub struct BlobRead {
    /// The table of the row.
    pub table: &'static str,
    /// The column of the content.
    pub column: &'static str,
    /// The row that is read.
    pub rowid: i64,
    /// Whether the content is opened for reading only.
    pub read_only: bool,
    /// The offset of the first byte that is read.
    pub start: usize,
    /// The number of bytes that are read.
    pub len: usize,
}

/// The read that gives the bytes of `range` in the content of the row
/// `rowid`: of the content column, opened for reading only, from the
/// start of the range on, as many bytes as the range has. There is none
/// for a range longer than any content.
pub fn blob_read(rowid: i64, range: Range<usize>) -> (plan: Option<BlobRead>)
    ensures
        plan is None <==> range_len(range) > MAX_CONTENT_LEN,
        plan matches Some(p) ==> p.table@ == content_table() && p.column@ == content_column()
            && p.rowid == rowid && p.read_only && p.start == range.start && p.len == range_len(
            range,
        ),
{
    let len: usize = if range.start <= range.end {
        range.end - range.start
    } else {
        0
    };
    if len > MAX_CONTENT_LEN {
        None
    } else {
        Some(
            BlobRead {
                table: "tantivy_blobs",
                column: "content",
                rowid,
                read_only: true,
                start: range.start,
                len,
            },
        )
    }
}

/// Where a file's content is found, as it was when the file was looked up.
pub struct ReadHandleData {
    /// The row that held the file.
    pub rowid: i64,
    /// The number of bytes the file had.
    pub length: usize,
}

/// What a lookup of a file means that found `row`: the file is there
/// exactly if a row was found, whatever the row holds.
pub fn existence_outcome(row: Option<i32>) -> (yes: bool)
    ensures
        yes == row is Some,
{
    row.is_some()
}

/// What a deletion means that removed `rows_deleted` rows: the file was
/// there exactly if a row went.
pub fn deletion_outcome(name: &[u8], rows_deleted: usize) -> (res: Result<
    (),
    TantivySqliteStorageError,
>)
    ensures
        rows_deleted != 0 ==> res is Ok,
        rows_deleted == 0 ==> res is Err && res->Err_0.is_not_found(name@),
{
    if rows_deleted == 0 {
        Err(TantivySqliteStorageError::FileDoesNotExist(slice_to_vec(name)))
    } else {
        Ok(())
    }
}

/// What an insertion that skips existing rows means when it added
/// `rows_inserted` rows: the file is new exactly if one row came.
pub fn creation_outcome(name: &[u8], rows_inserted: usize) -> (res: Result<
    (),
    TantivySqliteStorageError,
>)
    ensures
        rows_inserted == 1 ==> res is Ok,
        rows_inserted != 1 ==> res is Err && res->Err_0.is_already_exists(name@),
{
    if rows_inserted != 1 {
        Err(TantivySqliteStorageError::FileAlreadyExists(slice_to_vec(name)))
    } else {
        Ok(())
    }
}

/// What a lookup of the content of `name` means: the content of the row
/// that was found, or that there is no such file.
pub fn content_outcome(name: &[u8], content: Option<Vec<u8>>) -> (res: Result<
    Vec<u8>,
    TantivySqliteStorageError,
>)
    ensures
        content matches Some(bytes) ==> res is Ok && res->Ok_0 == bytes,
        content is None ==> res is Err && res->Err_0.is_not_found(name@),
{
    match content {
        Some(bytes) => Ok(bytes),
        None => Err(TantivySqliteStorageError::FileDoesNotExist(slice_to_vec(name))),
    }
}

/// What a lookup of the row and size of `name` means: where to read the
/// file, or that there is no such file.
pub fn handle_outcome(name: &[u8], row: Option<(i64, usize)>) -> (res: Result<
    ReadHandleData,
    TantivySqliteStorageError,
>)
    ensures
        row matches Some(found) ==> res is Ok && res->Ok_0.rowid == found.0 && res->Ok_0.length
            == found.1,
        row is None ==> res is Err && res->Err_0.is_not_found(name@),
{
    match row {
        Some((rowid, length)) => Ok(ReadHandleData { rowid, length }),
        None => Err(TantivySqliteStorageError::FileDoesNotExist(slice_to_vec(name))),
    }
}

/// The table and the watchers of one directory.
pub struct TantivySqliteStorageInner {
    connection_pool: ConnectionPool,
    watch_callback_list: WatchCallbackList,
}

impl TantivySqliteStorageInner {
    /// Takes the pool and makes sure that the table is there. A failure
    /// to do so is the store's, and leaves no directory.
    pub fn new(connection_pool: ConnectionPool) -> (res: Result<Self, TantivySqliteStorageError>)
        ensures
            res matches Err(e) ==> e.is_store_failure(),
    {
        let ret = Self { connection_pool, watch_callback_list: WatchCallbackList::default() };
        match ret.init() {
            Ok(()) => Ok(ret),
            Err(e) => Err(e),
        }
    }

    /// A connection out of the pool, or the pool's failure to give one.
    fn connection(&self) -> (res: Result<SqliteConnection, TantivySqliteStorageError>)
        ensures
            res matches Err(e) ==> e is Pool,
    {
        match checkout(&self.connection_pool) {
            Ok(conn) => Ok(conn),
            Err(e) => Err(TantivySqliteStorageError::from(e)),
        }
    }

    /// Subscribes `watch_callback` to replacements of the metadata file.
    pub fn watch(&self, watch_callback: WatchCallback) -> WatchHandle {
        self.watch_callback_list.subscribe(watch_callback)
    }

    /// Whether `name` has a row. Only the store can fail here.
    pub fn file_exists(&self, name: &[u8]) -> (res: Result<bool, TantivySqliteStorageError>)
        ensures
            res matches Err(e) ==> e.is_store_failure(),
    {
        let conn = match self.connection() {
            Ok(conn) => conn,
            Err(e) => {
                return Err(e);
            },
        };
        let found = query_flag(&conn, &exists_statement(name));
        match optional(found) {
            Ok(row) => Ok(existence_outcome(row)),
            Err(e) => Err(TantivySqliteStorageError::from(e)),
        }
    }

    /// Removes the row of `name`. Fails with "does not exist", under
    /// that name, where no row went.
    pub fn delete(&mut self, name: &[u8]) -> (res: Result<(), TantivySqliteStorageError>)
        ensures
            res matches Err(e) ==> e.is_store_failure() || e.is_not_found(name@),
    {
        let conn = match self.connection() {
            Ok(conn) => conn,
            Err(e) => {
                return Err(e);
            },
        };
        match execute(&conn, &delete_statement(name)) {
            Ok(rows_deleted) => deletion_outcome(name, rows_deleted),
            Err(e) => Err(TantivySqliteStorageError::from(e)),
        }
    }

    /// Adds a row for `name` with no content, unless there is one. Fails
    /// with "already exists", under that name, where none was added.
    pub fn create_empty_file(&mut self, name: &[u8]) -> (res: Result<
        (),
        TantivySqliteStorageError,
    >)
        ensures
            res matches Err(e) ==> e.is_store_failure() || e.is_already_exists(name@),
    {
        let conn = match self.connection() {
            Ok(conn) => conn,
            Err(e) => {
                return Err(e);
            },
        };
        match execute(&conn, &create_statement(name)) {
            Ok(rows_inserted) => creation_outcome(name, rows_inserted),
            Err(e) => Err(TantivySqliteStorageError::from(e)),
        }
    }

    /// Puts `data` in the row of `name`, in place of what was there. Once
    /// the statement has succeeded, the watchers are called exactly if
    /// `name` is the metadata file; the calls run on their own and the
    /// result is the means to wait for them.
    pub fn atomic_write(&mut self, name: &[u8], data: &[u8]) -> (res: Result<
        Option<FutureResult<()>>,
        TantivySqliteStorageError,
    >)
        ensures
            res matches Ok(pending) ==> (pending is Some <==> name@ == meta_name()),
            res matches Err(e) ==> e.is_store_failure(),
    {
        let conn = match self.connection() {
            Ok(conn) => conn,
            Err(e) => {
                return Err(e);
            },
        };
        match execute(&conn, &write_statement(name, data)) {
            Ok(_) => {
                if is_meta_name(name) {
                    Ok(Some(self.watch_callback_list.broadcast()))
                } else {
                    Ok(None)
                }
            },
            Err(e) => Err(TantivySqliteStorageError::from(e)),
        }
    }

    /// The whole content of `name`. Fails with "does not exist", under
    /// that name, where there is no row.
    pub fn atomic_read(&self, name: &[u8]) -> (res: Result<Vec<u8>, TantivySqliteStorageError>)
        ensures
            res matches Err(e) ==> e.is_store_failure() || e.is_not_found(name@),
    {
        let conn = match self.connection() {
            Ok(conn) => conn,
            Err(e) => {
                return Err(e);
            },
        };
        let found = query_bytes(&conn, &read_statement(name));
        match optional(found) {
            Ok(content) => content_outcome(name, content),
            Err(e) => Err(TantivySqliteStorageError::from(e)),
        }
    }

    /// The row and the size of `name`, for later reads of parts of it.
    /// Fails with "does not exist", under that name, where there is no row.
    pub fn read_handle(&self, name: &[u8]) -> (res: Result<
        ReadHandleData,
        TantivySqliteStorageError,
    >)
        ensures
            res matches Err(e) ==> e.is_store_failure() || e.is_not_found(name@),
    {
        let conn = match self.connection() {
            Ok(conn) => conn,
            Err(e) => {
                return Err(e);
            },
        };
        let found = query_id_and_size(&conn, &locate_statement(name));
        match optional(found) {
            Ok(row) => handle_outcome(name, row),
            Err(e) => Err(TantivySqliteStorageError::from(e)),
        }
    }

    /// The bytes of `range` in the content of the row `rowid`: as many as
    /// the range asks for, or a failure of the store, which a range that
    /// reaches past the content is too. What is asked of SQLite is the
    /// read that [`blob_read`] gives; no content is longer than
    /// [`MAX_CONTENT_LEN`], so for a longer range there is no such read
    /// and the failure is the one of a content that is too short.
    pub fn read_bytes(&self, rowid: i64, range: Range<usize>) -> (res: Result<
        Vec<u8>,
        TantivySqliteStorageError,
    >)
        ensures
            res matches Ok(bytes) ==> bytes@.len() == range_len(range),
            res matches Err(e) ==> e.is_store_failure(),
            range_len(range) > MAX_CONTENT_LEN ==> res is Err,
    {
        let conn = match self.connection() {
            Ok(conn) => conn,
            Err(e) => {
                return Err(e);
            },
        };
        let plan = match blob_read(rowid, range) {
            Some(plan) => plan,
            None => {
                return Err(TantivySqliteStorageError::from(blob_size_error()));
            },
        };
        let blob = match open_blob(&conn, plan.table, plan.column, plan.rowid, plan.read_only) {
            Ok(blob) => blob,
            Err(e) => {
                return Err(TantivySqliteStorageError::from(e));
            },
        };
        let mut buf: Vec<u8> = vec![0u8; plan.len];
        match read_blob_at(&blob, &mut buf, plan.start) {
            Ok(()) => Ok(buf),
            Err(e) => Err(TantivySqliteStorageError::from(e)),
        }
    }

    /// Creates the table unless it is there.
    pub fn init(&self) -> (res: Result<(), TantivySqliteStorageError>)
        ensures
            res matches Err(e) ==> e.is_store_failure(),
    {
        let conn = match self.connection() {
            Ok(conn) => conn,
            Err(e) => {
                return Err(e);
            },
        };
        match execute(&conn, &init_statement()) {
            Ok(_) => Ok(()),
            Err(e) => Err(TantivySqliteStorageError::from(e)),
        }
    }
}

} // verus!
