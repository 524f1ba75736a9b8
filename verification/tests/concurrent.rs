use r2d2::Pool;
use r2d2_sqlite::SqliteConnectionManager;
use tantivy::Executor;
use tantivy_sqlite_storage::ConnectionPool;
use tantivy_sqlite_storage::TantivySqliteStorage;
use uuid::Uuid;

fn shared_storage(connections: u32) -> TantivySqliteStorage {
    let manager = SqliteConnectionManager::file(format!(
        "file:{}?mode=memory&cache=shared",
        Uuid::new_v4()
    ));
    let pool = Pool::builder().max_size(connections).build(manager).unwrap();
    TantivySqliteStorage::new(ConnectionPool(pool)).unwrap()
}

#[test]
fn concurrent_writes_to_distinct_names_all_arrive() {
    let storage = shared_storage(4);
    let writers = Executor::multi_thread(8, "writer-").unwrap();
    let written = writers
        .map(
            |n: u8| {
                storage.atomic_write(&[b'f', n], &[n; 100]).unwrap();
                Ok(n)
            },
            0..32u8,
        )
        .unwrap();
    assert_eq!(written.len(), 32);
    for n in 0..32u8 {
        assert_eq!(storage.atomic_read(&[b'f', n]).unwrap(), [n; 100]);
    }
}

#[test]
fn concurrent_readers_share_the_directory() {
    let storage = shared_storage(4);
    storage.atomic_write(b"f", b"hello, world!").unwrap();
    let handle = storage.get_file_handle(b"f").unwrap();
    let readers = Executor::multi_thread(8, "reader-").unwrap();
    let read = readers
        .map(
            |n: usize| {
                assert!(storage.file_exists(b"f").unwrap());
                assert_eq!(storage.atomic_read(b"f").unwrap(), b"hello, world!");
                Ok(handle.read_bytes(n..13).unwrap())
            },
            0..13usize,
        )
        .unwrap();
    for n in 0..13usize {
        assert_eq!(read[n], b"hello, world!"[n..]);
    }
}
