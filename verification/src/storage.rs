//! The directory itself: the table and the watchers behind one lock, shared
//! by every copy of the directory and by the handles it gives out.

use crate::error::{DeleteError, OpenReadError, OpenWriteError, TantivySqliteStorageError};
use crate::handle::{ReadHandle, TantivySqliteStorageWritePtr};
use crate::lock::{acquire_read, acquire_write, new_lock, read_access, write_access};
use crate::sqlite::ConnectionPool;
use crate::store::TantivySqliteStorageInner;
use parking_lot::RwLock;
use std::sync::Arc;
use tantivy::directory::{WatchCallback, WatchHandle};
use tantivy::TantivyError;
use vstd::prelude::*;
use vstd::slice::slice_to_vec;

verus! {

/// What the end of a broadcast means for the write that started it:
/// nothing. The write has succeeded, however the watchers fared.
pub fn broadcast_outcome(ended: Result<(), TantivyError>) -> (res: Result<
    (),
    TantivySqliteStorageError,
>)
    ensures
        res is Ok,
{
    match ended {
        Ok(()) => Ok(()),
        Err(_) => Ok(()),
    }
}

/// A directory of files kept in one SQLite table.
///
/// Copies share the table and the watchers. Operations that change the
/// table hold the lock alone; the others share it.
#[derive(Clone)]
pub struct TantivySqliteStorage {
    inner: Arc<RwLock<TantivySqliteStorageInner>>,
}

impl TantivySqliteStorage {
    /// The table and the watchers behind their lock. The handles that the
    /// directory gives out hold this same state.
    pub closed spec fn shared(&self) -> Arc<RwLock<TantivySqliteStorageInner>> {
        self.inner
    }

    /// Creates a new storage on the connections of `connection_pool`, and
    /// the table if it is not there. Where that fails there is no storage,
    /// and the failure is the store's.
    pub fn new(connection_pool: ConnectionPool) -> (res: Result<Self, TantivySqliteStorageError>)
        ensures
            res matches Err(e) ==> e.is_store_failure(),
    {
        match TantivySqliteStorageInner::new(connection_pool) {
            Ok(inner) => Ok(TantivySqliteStorage { inner: Arc::new(new_lock(inner)) }),
            Err(e) => Err(e),
        }
    }

    /// A handle that reads parts of `name`. A file that is not there is
    /// reported as such, under that name; any other failure is an I/O
    /// error on `name` that holds a failure of the store.
    pub fn get_file_handle(&self, name: &[u8]) -> (res: Result<ReadHandle, OpenReadError>)
        ensures
            res matches Ok(handle) ==> handle@.shared == self.shared(),
            res matches Err(e) ==> e.is_not_found(name@) || e.is_store_failure(name@),
    {
        let found = {
            let guard = acquire_read(&self.inner);
            read_access(&guard).read_handle(name)
        };
        match found {
            Ok(data) => Ok(ReadHandle::new(data, self.inner.clone())),
            Err(e) => Err(e.into_open_read_error(name)),
        }
    }

    /// Deletes `name`. A file that is not there is reported as such,
    /// under that name; any other failure is an I/O error on `name` that
    /// holds a failure of the store.
    pub fn delete(&self, name: &[u8]) -> (res: Result<(), DeleteError>)
        ensures
            res matches Err(e) ==> e.is_not_found(name@) || e.is_store_failure(name@),
    {
        let deleted = {
            let mut guard = acquire_write(&self.inner);
            write_access(&mut guard).delete(name)
        };
        match deleted {
            Ok(()) => Ok(()),
            Err(e) => Err(e.into_delete_error(name)),
        }
    }

    /// Whether `name` is there. Every failure is an I/O error on `name`
    /// that holds a failure of the store.
    pub fn file_exists(&self, name: &[u8]) -> (res: Result<bool, OpenReadError>)
        ensures
            res matches Err(e) ==> e.is_store_failure(name@),
    {
        let found = {
            let guard = acquire_read(&self.inner);
            read_access(&guard).file_exists(name)
        };
        match found {
            Ok(yes) => Ok(yes),
            Err(e) => Err(OpenReadError::IoError { io_error: e, filepath: slice_to_vec(name) }),
        }
    }

    /// Creates `name` with no content and returns a handle that writes
    /// it. Fails with an I/O error on `name` that holds either a failure
    /// of the store or, where the file is there already, "already exists"
    /// under that name.
    pub fn open_write(&self, name: &[u8]) -> (res: Result<
        TantivySqliteStorageWritePtr,
        OpenWriteError,
    >)
        ensures
            res matches Ok(handle) ==> handle@.name == name@ && handle@.buffer.len() == 0
                && handle@.shared == self.shared(),
            res matches Err(e) ==> e.is_already_exists(name@) || e.is_store_failure(name@),
    {
        let created = {
            let mut guard = acquire_write(&self.inner);
            write_access(&mut guard).create_empty_file(name)
        };
        match created {
            Ok(()) => {
                let copy = TantivySqliteStorage { inner: self.inner.clone() };
                Ok(TantivySqliteStorageWritePtr::new(name, copy))
            },
            Err(e) => Err(e.into_open_write_error(name)),
        }
    }

    /// The whole content of `name`. A file that is not there is reported
    /// as such, under that name; any other failure is an I/O error on
    /// `name` that holds a failure of the store.
    pub fn atomic_read(&self, name: &[u8]) -> (res: Result<Vec<u8>, OpenReadError>)
        ensures
            res matches Err(e) ==> e.is_not_found(name@) || e.is_store_failure(name@),
    {
        let content = {
            let guard = acquire_read(&self.inner);
            read_access(&guard).atomic_read(name)
        };
        match content {
            Ok(bytes) => Ok(bytes),
            Err(e) => Err(e.into_open_read_error(name)),
        }
    }

    /// Replaces the content of `name` with `data`, creating the file if
    /// need be. After a write to the metadata file this waits for the
    /// broadcast to end before it returns, and does so once the lock is
    /// free again, so a watcher may use the directory. By then every
    /// watcher has been called, unless one of them panicked or tantivy
    /// could not start the thread that calls them; neither fails the
    /// write, as [`broadcast_outcome`] says. Only the store can fail here.
    pub fn atomic_write(&self, name: &[u8], data: &[u8]) -> (res: Result<
        (),
        TantivySqliteStorageError,
    >)
        ensures
            res matches Err(e) ==> e.is_store_failure(),
    {
        let written = {
            let mut guard = acquire_write(&self.inner);
            write_access(&mut guard).atomic_write(name, data)
        };
        match written {
            Ok(Some(pending)) => broadcast_outcome(pending.wait()),
            Ok(None) => Ok(()),
            Err(e) => Err(e),
        }
    }

    /// Does nothing: SQLite sees to it that what was written stays.
    pub fn sync_directory(&self) -> (res: Result<(), TantivySqliteStorageError>)
        ensures
            res is Ok,
    {
        Ok(())
    }

    /// Subscribes `watch_callback` to replacements of the metadata file,
    /// for as long as the handle lives. It cannot fail.
    pub fn watch(&self, watch_callback: WatchCallback) -> (res: Result<WatchHandle, TantivyError>)
        ensures
            res is Ok,
    {
        let guard = acquire_read(&self.inner);
        Ok(read_access(&guard).watch(watch_callback))
    }
}

} // verus!
