//! A directory of named byte files kept in one SQLite table.
//!
//! Every file is one row of the table `tantivy_blobs`: the file's name is the
//! unique key of the row and the file's bytes are its content. The operations
//! are those a full-text index asks of its storage: existence, deletion,
//! whole-file reads and replacing writes, positioned reads through a handle,
//! buffered writes that commit on termination, and a notification whenever
//! the index's metadata file is replaced.
//!
//! The table belongs to this library: nothing else should write to it.
//!
//! What is proved here is what the library itself decides: which statement
//! an operation runs and with which values ([`statement`]), what each
//! answer of SQLite means for the caller ([`store`]), how a failure is
//! reported at the directory interface ([`error`]), what a write handle
//! has collected ([`handle`]), and which writes are announced to the
//! watchers. What the table holds is SQLite's to say; the pool, SQLite,
//! the lock and the list of watchers are called through a few functions
//! that are believed, not proved.

pub mod error;
pub mod handle;
mod lock;
mod sqlite;
pub mod statement;
pub mod storage;
pub mod store;
mod watch;

pub use error::TantivySqliteStorageError;
pub use sqlite::ConnectionPool;
pub use storage::TantivySqliteStorage;
