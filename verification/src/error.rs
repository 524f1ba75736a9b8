//! What can go wrong, at the table and at the directory interface.

use vstd::prelude::*;
use vstd::slice::slice_to_vec;

verus! {

/// The possible errors produced by this library.
#[derive(Debug)]
pub enum TantivySqliteStorageError {
    /// A statement failed in SQLite.
    Sqlite(rusqlite::Error),
    /// The pool handed out no connection.
    Pool(r2d2::Error),
    /// The named file has no row.
    FileDoesNotExist(Vec<u8>),
    /// The named file already has a row.
    FileAlreadyExists(Vec<u8>),
}

impl TantivySqliteStorageError {
    /// The store itself failed: nothing is said about the file.
    pub open spec fn is_store_failure(&self) -> bool {
        self is Sqlite || self is Pool
    }

    /// The file `name` was asked for and has no row.
    pub open spec fn is_not_found(&self, name: Seq<u8>) -> bool {
        self matches TantivySqliteStorageError::FileDoesNotExist(p) && p@ == name
    }

    /// The file `name` was to be created and has a row already.
    pub open spec fn is_already_exists(&self, name: Seq<u8>) -> bool {
        self matches TantivySqliteStorageError::FileAlreadyExists(p) && p@ == name
    }

    /// The text shown for each kind of error.
    pub open spec fn message_spec(&self) -> Seq<char> {
        match self {
            TantivySqliteStorageError::Sqlite(_) => "Sqlite command failed"@,
            TantivySqliteStorageError::Pool(_) => "r2d2 pool error"@,
            TantivySqliteStorageError::FileDoesNotExist(_) => "File does not exist"@,
            TantivySqliteStorageError::FileAlreadyExists(_) => "File already exists"@,
        }
    }

    /// The text shown for this error.
    pub fn message(&self) -> (text: &'static str)
        ensures
            text@ == self.message_spec(),
    {
        match self {
            TantivySqliteStorageError::Sqlite(_) => "Sqlite command failed",
            TantivySqliteStorageError::Pool(_) => "r2d2 pool error",
            TantivySqliteStorageError::FileDoesNotExist(_) => "File does not exist",
            TantivySqliteStorageError::FileAlreadyExists(_) => "File already exists",
        }
    }

    /// The error of opening `name` for reading: a missing file stays a missing
    /// file, under the name the error carries; anything else is an I/O error
    /// on `name`.
    pub fn into_open_read_error(self, name: &[u8]) -> (e: OpenReadError)
        ensures
            match self {
                TantivySqliteStorageError::FileDoesNotExist(p) => e
                    == OpenReadError::FileDoesNotExist(p),
                _ => e matches OpenReadError::IoError { io_error, filepath } && io_error == self
                    && filepath@ == name@,
            },
    {
        match self {
            TantivySqliteStorageError::FileDoesNotExist(p) => OpenReadError::FileDoesNotExist(p),
            other => OpenReadError::IoError { io_error: other, filepath: slice_to_vec(name) },
        }
    }

    /// The error of deleting `name`: a missing file stays a missing file,
    /// under the name the error carries; anything else is an I/O error on
    /// `name`.
    pub fn into_delete_error(self, name: &[u8]) -> (e: DeleteError)
        ensures
            match self {
                TantivySqliteStorageError::FileDoesNotExist(p) => e == DeleteError::FileDoesNotExist(
                    p,
                ),
                _ => e matches DeleteError::IoError { io_error, filepath } && io_error == self
                    && filepath@ == name@,
            },
    {
        match self {
            TantivySqliteStorageError::FileDoesNotExist(p) => DeleteError::FileDoesNotExist(p),
            other => DeleteError::IoError { io_error: other, filepath: slice_to_vec(name) },
        }
    }

    /// The error of opening `name` for writing: always an I/O error on `name`,
    /// whatever went wrong.
    pub fn into_open_write_error(self, name: &[u8]) -> (e: OpenWriteError)
        ensures
            e matches OpenWriteError::IoError { io_error, filepath } && io_error == self
                && filepath@ == name@,
    {
        OpenWriteError::IoError { io_error: self, filepath: slice_to_vec(name) }
    }
}

impl From<rusqlite::Error> for TantivySqliteStorageError {
    fn from(e: rusqlite::Error) -> (res: Self) {
        TantivySqliteStorageError::Sqlite(e)
    }
}

impl vstd::std_specs::convert::FromSpecImpl<rusqlite::Error> for TantivySqliteStorageError {
    open spec fn obeys_from_spec() -> bool {
        true
    }

    open spec fn from_spec(e: rusqlite::Error) -> Self {
        TantivySqliteStorageError::Sqlite(e)
    }
}

impl From<r2d2::Error> for TantivySqliteStorageError {
    fn from(e: r2d2::Error) -> (res: Self) {
        TantivySqliteStorageError::Pool(e)
    }
}

impl vstd::std_specs::convert::FromSpecImpl<r2d2::Error> for TantivySqliteStorageError {
    open spec fn obeys_from_spec() -> bool {
        true
    }

    open spec fn from_spec(e: r2d2::Error) -> Self {
        TantivySqliteStorageError::Pool(e)
    }
}

/// Why a file could not be opened for reading.
#[derive(Debug)]
pub enum OpenReadError {
    /// The file has no row.
    FileDoesNotExist(Vec<u8>),
    /// Anything else.
    IoError {
        /// What went wrong underneath.
        io_error: TantivySqliteStorageError,
        /// The file that was asked for.
        filepath: Vec<u8>,
    },
}

impl OpenReadError {
    /// The file `name` was asked for and is not there.
    pub open spec fn is_not_found(&self, name: Seq<u8>) -> bool {
        self matches OpenReadError::FileDoesNotExist(p) && p@ == name
    }

    /// The store failed while `name` was asked for.
    pub open spec fn is_store_failure(&self, name: Seq<u8>) -> bool {
        self matches OpenReadError::IoError { io_error, filepath } && filepath@ == name
            && io_error.is_store_failure()
    }
}

/// Why a file could not be deleted.
#[derive(Debug)]
pub enum DeleteError {
    /// The file has no row.
    FileDoesNotExist(Vec<u8>),
    /// Anything else.
    IoError {
        /// What went wrong underneath.
        io_error: TantivySqliteStorageError,
        /// The file that was to be deleted.
        filepath: Vec<u8>,
    },
}

impl DeleteError {
    /// The file `name` was to be deleted and is not there.
    pub open spec fn is_not_found(&self, name: Seq<u8>) -> bool {
        self matches DeleteError::FileDoesNotExist(p) && p@ == name
    }

    /// The store failed while `name` was to be deleted.
    pub open spec fn is_store_failure(&self, name: Seq<u8>) -> bool {
        self matches DeleteError::IoError { io_error, filepath } && filepath@ == name
            && io_error.is_store_failure()
    }
}

/// Why a file could not be opened for writing.
#[derive(Debug)]
pub enum OpenWriteError {
    /// Whatever went wrong, a file that exists already included.
    IoError {
        /// What went wrong underneath.
        io_error: TantivySqliteStorageError,
        /// The file that was to be written.
        filepath: Vec<u8>,
    },
}

impl OpenWriteError {
    /// The file `name` was to be created and is there already.
    pub open spec fn is_already_exists(&self, name: Seq<u8>) -> bool {
        self matches OpenWriteError::IoError { io_error, filepath } && filepath@ == name
            && io_error.is_already_exists(name)
    }

    /// The store failed while `name` was to be created.
    pub open spec fn is_store_failure(&self, name: Seq<u8>) -> bool {
        self matches OpenWriteError::IoError { io_error, filepath } && filepath@ == name
            && io_error.is_store_failure()
    }
}

} // verus!
