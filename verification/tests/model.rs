use r2d2::Pool;
use r2d2_sqlite::SqliteConnectionManager;
use std::collections::BTreeMap;
use tantivy_sqlite_storage::ConnectionPool;
use tantivy_sqlite_storage::store::TantivySqliteStorageInner;
use tantivy_sqlite_storage::TantivySqliteStorageError;
use uuid::Uuid;

struct Dice(u64);

impl Dice {
    fn roll(&mut self, sides: u64) -> u64 {
        self.0 = self.0.wrapping_mul(6364136223846793005).wrapping_add(1442695040888963407);
        (self.0 >> 33) % sides
    }

    fn bytes(&mut self, max_len: u64) -> Vec<u8> {
        let len = self.roll(max_len + 1);
        let mut bytes = Vec::new();
        for _ in 0..len {
            bytes.push(self.roll(256) as u8);
        }
        bytes
    }
}

fn model_table() -> TantivySqliteStorageInner {
    let manager = SqliteConnectionManager::file(format!(
        "file:{}?mode=memory&cache=shared",
        Uuid::new_v4()
    ));
    let pool = Pool::builder().max_size(2).build(manager).unwrap();
    TantivySqliteStorageInner::new(ConnectionPool(pool)).unwrap()
}

fn run_against_a_map(seed: u64, steps: usize) {
    let names: [&[u8]; 6] = [b"a", b"b", b"dir/c", b"", b"meta.json", b"\x00\xff"];
    let mut dice = Dice(seed);
    let mut table = model_table();
    let mut map: BTreeMap<Vec<u8>, Vec<u8>> = BTreeMap::new();
    for _ in 0..steps {
        let name = names[dice.roll(6) as usize];
        match dice.roll(6) {
            0 => {
                let created = table.create_empty_file(name);
                if map.contains_key(name) {
                    assert!(matches!(
                        created,
                        Err(TantivySqliteStorageError::FileAlreadyExists(_))
                    ));
                } else {
                    created.unwrap();
                    map.insert(name.to_vec(), Vec::new());
                }
            }
            1 => {
                let data = dice.bytes(40);
                let pending = table.atomic_write(name, &data).unwrap();
                assert_eq!(pending.is_some(), name == b"meta.json");
                map.insert(name.to_vec(), data);
            }
            2 => {
                let deleted = table.delete(name);
                if map.remove(name).is_some() {
                    deleted.unwrap();
                } else {
                    assert!(matches!(
                        deleted,
                        Err(TantivySqliteStorageError::FileDoesNotExist(_))
                    ));
                }
            }
            3 => {
                assert_eq!(table.file_exists(name).unwrap(), map.contains_key(name));
            }
            4 => match map.get(name) {
                Some(content) => assert_eq!(&table.atomic_read(name).unwrap(), content),
                None => assert!(matches!(
                    table.atomic_read(name),
                    Err(TantivySqliteStorageError::FileDoesNotExist(_))
                )),
            },
            _ => match map.get(name) {
                Some(content) => {
                    let data = table.read_handle(name).unwrap();
                    assert_eq!(data.length, content.len());
                    let start = dice.roll(content.len() as u64 + 1) as usize;
                    let end = start + dice.roll((content.len() - start) as u64 + 1) as usize;
                    assert_eq!(
                        table.read_bytes(data.rowid, start..end).unwrap(),
                        content[start..end]
                    );
                }
                None => assert!(matches!(
                    table.read_handle(name),
                    Err(TantivySqliteStorageError::FileDoesNotExist(_))
                )),
            },
        }
    }
    for name in names {
        assert_eq!(table.file_exists(name).unwrap(), map.contains_key(name));
    }
}

#[test]
fn the_table_behaves_like_a_map_from_names_to_contents() {
    run_against_a_map(1, 600);
}

#[test]
fn the_table_behaves_like_a_map_on_other_sequences() {
    run_against_a_map(0x5eed, 600);
    run_against_a_map(u64::MAX, 600);
}
