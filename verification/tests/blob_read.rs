use tantivy_sqlite_storage::store::{blob_read, MAX_CONTENT_LEN};

#[test]
fn a_read_asks_for_the_content_of_the_row_from_the_start_of_the_range() {
    let plan = blob_read(7, 3..7).unwrap();
    assert_eq!(plan.table, "tantivy_blobs");
    assert_eq!(plan.column, "content");
    assert_eq!(plan.rowid, 7);
    assert!(plan.read_only);
    assert_eq!(plan.start, 3);
    assert_eq!(plan.len, 4);
}

#[test]
fn adjoining_reads_ask_for_adjoining_bytes() {
    let first = blob_read(1, 2..5).unwrap();
    let second = blob_read(1, 5..11).unwrap();
    let both = blob_read(1, 2..11).unwrap();
    assert_eq!(first.start, both.start);
    assert_eq!(first.start + first.len, second.start);
    assert_eq!(first.len + second.len, both.len);
    assert_eq!(second.start + second.len, both.start + both.len);
}

#[test]
fn a_read_of_an_empty_or_reversed_range_asks_for_no_byte() {
    let plan = blob_read(-1, 5..5).unwrap();
    assert_eq!((plan.rowid, plan.start, plan.len), (-1, 5, 0));
    let plan = blob_read(i64::MIN, 7..3).unwrap();
    assert_eq!((plan.rowid, plan.start, plan.len), (i64::MIN, 7, 0));
    let plan = blob_read(0, usize::MAX..0).unwrap();
    assert_eq!((plan.start, plan.len), (usize::MAX, 0));
    assert!(plan.read_only);
}

#[test]
fn there_is_no_read_of_more_than_a_content_can_hold() {
    assert_eq!(blob_read(1, 0..MAX_CONTENT_LEN).unwrap().len, 2147483647);
    assert_eq!(blob_read(1, 9..MAX_CONTENT_LEN + 9).unwrap().len, MAX_CONTENT_LEN);
    assert!(blob_read(1, 0..MAX_CONTENT_LEN + 1).is_none());
    assert!(blob_read(1, 9..MAX_CONTENT_LEN + 10).is_none());
    assert!(blob_read(1, 0..usize::MAX).is_none());
}
