//! The two handles that a directory gives out: one reads parts of a file
//! that exists, the other collects a file's bytes and writes them as a whole.

use crate::error::TantivySqliteStorageError;
use crate::lock::{acquire_read, read_access};
use crate::storage::TantivySqliteStorage;
use crate::store::{range_len, ReadHandleData, TantivySqliteStorageInner, MAX_CONTENT_LEN};
use parking_lot::RwLock;
use std::ops::Range;
use std::sync::Arc;
use vstd::prelude::*;
use vstd::slice::slice_to_vec;

verus! {

/// What a read handle holds: where the file was found, and the shared
/// state of the directory that gave the handle out.
pub struct ReadHandleView {
    /// The row that held the file when the handle was made.
    pub rowid: i64,
    /// The number of bytes that the file had then.
    pub length: usize,
    /// The table and the watchers behind their lock: the directory's own,
    /// not a copy.
    pub shared: Arc<RwLock<TantivySqliteStorageInner>>,
}

/// Reads parts of one file.
///
/// The row and the size are those that the file had when the handle was
/// made, and the handle reads that row, whatever has become of it. A
/// write to the same name puts the file into a new row: a handle that is
/// older than such a write may fail to read, or read what the row holds
/// by then. Make a new handle after a write.
pub struct ReadHandle {
    data: ReadHandleData,
    conn: Arc<RwLock<TantivySqliteStorageInner>>,
}

impl View for ReadHandle {
    type V = ReadHandleView;

    closed spec fn view(&self) -> ReadHandleView {
        ReadHandleView { rowid: self.data.rowid, length: self.data.length, shared: self.conn }
    }
}

impl ReadHandle {
    /// A handle on the row and size in `data`, reading through `conn`.
    pub(crate) fn new(data: ReadHandleData, conn: Arc<RwLock<TantivySqliteStorageInner>>) -> (handle:
        Self)
        ensures
            handle@.rowid == data.rowid,
            handle@.length == data.length,
            handle@.shared == conn,
    {
        ReadHandle { data, conn }
    }

    /// The row that the handle reads.
    pub fn rowid(&self) -> (id: i64)
        ensures
            id == self@.rowid,
    {
        self.data.rowid
    }

    /// The size of the file when the handle was made. It is never asked
    /// for again.
    pub fn len(&self) -> (n: usize)
        ensures
            n == self@.length,
    {
        self.data.length
    }

    /// The bytes of `range` in the file: as many as the range asks for, or
    /// a failure of the store, which a range that reaches past the file's
    /// end is too.
    pub fn read_bytes(&self, range: Range<usize>) -> (res: Result<
        Vec<u8>,
        TantivySqliteStorageError,
    >)
        ensures
            res matches Ok(bytes) ==> bytes@.len() == range_len(range),
            res matches Err(e) ==> e.is_store_failure(),
            range_len(range) > MAX_CONTENT_LEN ==> res is Err,
    {
        let guard = acquire_read(&self.conn);
        read_access(&guard).read_bytes(self.data.rowid, range)
    }
}

/// What a write handle holds: the file it writes, the bytes it has been
/// given, and the shared state of the directory that gave the handle out.
pub struct WritePtrView {
    /// The name of the file.
    pub name: Seq<u8>,
    /// All that was written, in the order of the writes.
    pub buffer: Seq<u8>,
    /// The table and the watchers behind their lock: the directory's own,
    /// not a copy.
    pub shared: Arc<RwLock<TantivySqliteStorageInner>>,
}

/// Collects the bytes of one file and writes them as a whole.
///
/// Nothing reaches the table before `flush` or `terminate_ref`; each of
/// them replaces the file's content with all that was written so far.
pub struct TantivySqliteStorageWritePtr {
    data: Vec<u8>,
    path: Vec<u8>,
    storage: TantivySqliteStorage,
}

impl View for TantivySqliteStorageWritePtr {
    type V = WritePtrView;

    closed spec fn view(&self) -> WritePtrView {
        WritePtrView { name: self.path@, buffer: self.data@, shared: self.storage.shared() }
    }
}

impl TantivySqliteStorageWritePtr {
    /// A handle for `name` with nothing written yet, which will write
    /// through `storage`.
    pub fn new(name: &[u8], storage: TantivySqliteStorage) -> (handle: Self)
        ensures
            handle@.name == name@,
            handle@.buffer.len() == 0,
            handle@.shared == storage.shared(),
    {
        TantivySqliteStorageWritePtr { data: Vec::new(), path: slice_to_vec(name), storage }
    }

    /// The name of the file that is being written.
    pub fn name(&self) -> (name: &[u8])
        ensures
            name@ == self@.name,
    {
        self.path.as_slice()
    }

    /// All that was written so far.
    pub fn get_ref(&self) -> (buffer: &[u8])
        ensures
            buffer@ == self@.buffer,
    {
        self.data.as_slice()
    }

    /// Appends `buf` to what was written so far. It takes all of `buf`
    /// and cannot fail.
    pub fn write(&mut self, buf: &[u8]) -> (res: Result<usize, TantivySqliteStorageError>)
        ensures
            res is Ok,
            res->Ok_0 == buf@.len(),
            final(self)@.buffer == old(self)@.buffer + buf@,
            final(self)@.name == old(self)@.name,
            final(self)@.shared == old(self)@.shared,
    {
        self.data.extend_from_slice(buf);
        Ok(buf.len())
    }

    /// Replaces the file's content with all that was written so far, and
    /// keeps it for the next time. Only the store can fail here.
    pub fn flush(&mut self) -> (res: Result<(), TantivySqliteStorageError>)
        ensures
            res matches Err(e) ==> e.is_store_failure(),
            final(self)@ == old(self)@,
    {
        self.storage.atomic_write(self.name(), self.get_ref())
    }

    /// Ends the writing: the same as `flush`.
    pub fn terminate_ref(&mut self) -> (res: Result<(), TantivySqliteStorageError>)
        ensures
            res matches Err(e) ==> e.is_store_failure(),
            final(self)@ == old(self)@,
    {
        self.flush()
    }
}

} // verus!
