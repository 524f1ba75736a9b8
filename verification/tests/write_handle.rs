use r2d2::Pool;
use r2d2_sqlite::SqliteConnectionManager;
use tantivy_sqlite_storage::handle::TantivySqliteStorageWritePtr;
use tantivy_sqlite_storage::ConnectionPool;
use tantivy_sqlite_storage::TantivySqliteStorage;
use uuid::Uuid;

fn buffer_storage() -> TantivySqliteStorage {
    let manager = SqliteConnectionManager::file(format!(
        "file:{}?mode=memory&cache=shared",
        Uuid::new_v4()
    ));
    let pool = Pool::builder().max_size(2).build(manager).unwrap();
    TantivySqliteStorage::new(ConnectionPool(pool)).unwrap()
}

#[test]
fn a_new_handle_has_its_name_and_no_bytes() {
    let storage = buffer_storage();
    let write_ptr = TantivySqliteStorageWritePtr::new(b"some/file/path.txt", storage.clone());
    assert_eq!(write_ptr.name(), b"some/file/path.txt");
    assert_eq!(write_ptr.get_ref(), b"");
    assert!(!storage.file_exists(b"some/file/path.txt").unwrap());
}

#[test]
fn writes_are_kept_in_their_order() {
    let storage = buffer_storage();
    let mut write_ptr = storage.open_write(b"f").unwrap();
    assert_eq!(write_ptr.write(b"hello").unwrap(), 5);
    assert_eq!(write_ptr.get_ref(), b"hello");
    assert_eq!(write_ptr.write(b", ").unwrap(), 2);
    assert_eq!(write_ptr.write(b"").unwrap(), 0);
    assert_eq!(write_ptr.write(b"world!").unwrap(), 6);
    assert_eq!(write_ptr.get_ref(), b"hello, world!");
    assert_eq!(write_ptr.name(), b"f");
}

#[test]
fn flushing_keeps_the_bytes() {
    let storage = buffer_storage();
    let mut write_ptr = storage.open_write(b"f").unwrap();
    write_ptr.write(b"hello").unwrap();
    write_ptr.flush().unwrap();
    assert_eq!(write_ptr.get_ref(), b"hello");
    assert_eq!(write_ptr.name(), b"f");
    write_ptr.write(b", world!").unwrap();
    write_ptr.terminate_ref().unwrap();
    assert_eq!(write_ptr.get_ref(), b"hello, world!");
    assert_eq!(storage.atomic_read(b"f").unwrap(), b"hello, world!");
}

#[test]
fn a_handle_for_a_deleted_file_creates_it_again() {
    let storage = buffer_storage();
    let mut write_ptr = storage.open_write(b"f").unwrap();
    write_ptr.write(b"again").unwrap();
    storage.delete(b"f").unwrap();
    write_ptr.flush().unwrap();
    assert_eq!(storage.atomic_read(b"f").unwrap(), b"again");
}
