use tantivy::TantivyError;
use tantivy_sqlite_storage::storage::broadcast_outcome;
use tantivy_sqlite_storage::store::{
    content_outcome, creation_outcome, deletion_outcome, existence_outcome, handle_outcome,
};
use tantivy_sqlite_storage::TantivySqliteStorageError;

#[test]
fn a_deletion_of_no_row_is_a_missing_file() {
    match deletion_outcome(b"some/file/path.txt", 0) {
        Err(TantivySqliteStorageError::FileDoesNotExist(name)) => {
            assert_eq!(name, b"some/file/path.txt")
        }
        other => panic!("{:?}", other),
    }
}

#[test]
fn a_deletion_of_rows_is_a_success() {
    assert!(deletion_outcome(b"f", 1).is_ok());
    assert!(deletion_outcome(b"f", 2).is_ok());
    assert!(deletion_outcome(b"f", usize::MAX).is_ok());
}

#[test]
fn a_creation_of_one_row_is_a_success() {
    assert!(creation_outcome(b"f", 1).is_ok());
}

#[test]
fn a_creation_of_no_row_is_an_existing_file() {
    match creation_outcome(b"some/file/path.txt", 0) {
        Err(TantivySqliteStorageError::FileAlreadyExists(name)) => {
            assert_eq!(name, b"some/file/path.txt")
        }
        other => panic!("{:?}", other),
    }
    assert!(matches!(
        creation_outcome(b"f", 2),
        Err(TantivySqliteStorageError::FileAlreadyExists(_))
    ));
    assert!(matches!(
        creation_outcome(b"f", usize::MAX),
        Err(TantivySqliteStorageError::FileAlreadyExists(_))
    ));
}

#[test]
fn a_found_content_is_returned_as_it_is() {
    assert_eq!(content_outcome(b"f", Some(b"hello, world!".to_vec())).unwrap(), b"hello, world!");
    assert_eq!(content_outcome(b"f", Some(Vec::new())).unwrap(), b"");
    assert_eq!(content_outcome(b"f", Some(vec![0, 255, 0])).unwrap(), [0, 255, 0]);
}

#[test]
fn no_content_is_a_missing_file() {
    match content_outcome(b"some/file/path.txt", None) {
        Err(TantivySqliteStorageError::FileDoesNotExist(name)) => {
            assert_eq!(name, b"some/file/path.txt")
        }
        other => panic!("{:?}", other),
    }
}

#[test]
fn a_found_row_gives_the_place_to_read() {
    let data = handle_outcome(b"f", Some((7, 13))).ok().unwrap();
    assert_eq!(data.rowid, 7);
    assert_eq!(data.length, 13);
    let data = handle_outcome(b"f", Some((i64::MIN, 0))).ok().unwrap();
    assert_eq!(data.rowid, i64::MIN);
    assert_eq!(data.length, 0);
}

#[test]
fn no_row_is_a_missing_file() {
    match handle_outcome(b"some/file/path.txt", None) {
        Err(TantivySqliteStorageError::FileDoesNotExist(name)) => {
            assert_eq!(name, b"some/file/path.txt")
        }
        _ => panic!("a handle on no row"),
    }
}

#[test]
fn a_found_row_is_a_file_that_is_there() {
    assert!(existence_outcome(Some(1)));
    assert!(existence_outcome(Some(0)));
    assert!(existence_outcome(Some(i32::MIN)));
    assert!(!existence_outcome(None));
}

#[test]
fn the_end_of_a_broadcast_never_fails_the_write() {
    assert!(broadcast_outcome(Ok(())).is_ok());
    assert!(broadcast_outcome(Err(TantivyError::SystemError(
        "One of the callback panicked.".to_string()
    )))
    .is_ok());
    assert!(broadcast_outcome(Err(TantivyError::Poisoned)).is_ok());
}
