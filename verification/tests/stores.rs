use alexandrie::auth::{gate, last_token};
use alexandrie::blob::{Archive, BlobShelf, CHUNK_SIZE};
use alexandrie::error::DownloadError;
use alexandrie::metadata::{account, CounterUpdate, PackageRecord, PackageTable};
use alexandrie::version::ArchiveVersion;

fn record(name: &str, canonical_name: &str, downloads: i64) -> PackageRecord {
    PackageRecord {
        name: name.to_string(),
        canonical_name: canonical_name.to_string(),
        downloads,
    }
}

#[test]
fn last_token_is_the_one_supplied_last() {
    assert_eq!(last_token(&vec![]), None);
    assert_eq!(last_token(&vec!["a".to_string()]), Some("a".to_string()));
    assert_eq!(
        last_token(&vec!["a".to_string(), "b".to_string(), "c".to_string()]),
        Some("c".to_string())
    );
}

#[test]
fn gate_passes_an_author_and_refuses_nobody() {
    assert_eq!(gate(Some(17i64)), Ok(17));
    assert_eq!(gate::<i64>(None), Err(DownloadError::Unauthorized));
}

#[test]
fn account_adds_one_to_what_was_read() {
    assert_eq!(
        account("foo".to_string(), Some(("Foo".to_string(), 41))),
        Ok(CounterUpdate { name: "Foo".to_string(), downloads: 42 })
    );
    assert_eq!(
        account("foo".to_string(), Some(("Foo".to_string(), 0))),
        Ok(CounterUpdate { name: "Foo".to_string(), downloads: 1 })
    );
    assert_eq!(
        account("foo".to_string(), Some(("Foo".to_string(), i64::MAX - 1))),
        Ok(CounterUpdate { name: "Foo".to_string(), downloads: i64::MAX })
    );
}

#[test]
fn account_fails_without_a_row() {
    assert_eq!(
        account("foo".to_string(), None),
        Err(DownloadError::PackageNotFound { name: "foo".to_string() })
    );
}

#[test]
fn table_insert_refuses_duplicates_and_negative_counters() {
    let mut table = PackageTable::new();
    assert!(table.insert(record("foo", "foo", 3)));
    assert!(!table.insert(record("FOO", "foo", 9)));
    assert!(!table.insert(record("bar", "bar", -1)));
    assert!(table.insert(record("bar", "bar", 0)));
    assert_eq!(table.downloads(&"foo".to_string()), Some(3));
    assert_eq!(table.downloads(&"bar".to_string()), Some(0));
    assert_eq!(table.downloads(&"baz".to_string()), None);
}

#[test]
fn table_lookup_by_canonical_name() {
    let mut table = PackageTable::new();
    assert!(table.insert(record("Foo-Bar", "foo_bar", 3)));
    assert_eq!(
        table.find_by_canonical_name(&"foo_bar".to_string()),
        Some(&record("Foo-Bar", "foo_bar", 3))
    );
    assert_eq!(table.find_by_canonical_name(&"Foo-Bar".to_string()), None);
}

#[test]
fn transaction_increments_only_its_package() {
    let mut table = PackageTable::new();
    assert!(table.insert(record("a", "a", 1)));
    assert!(table.insert(record("B", "b", 10)));
    assert!(table.insert(record("c", "c", 100)));
    assert_eq!(
        table.increment_downloads_in_transaction(&"b".to_string()),
        Ok("B".to_string())
    );
    assert_eq!(table.downloads(&"a".to_string()), Some(1));
    assert_eq!(table.downloads(&"b".to_string()), Some(11));
    assert_eq!(table.downloads(&"c".to_string()), Some(100));
    assert_eq!(
        table.find_by_canonical_name(&"b".to_string()),
        Some(&record("B", "b", 11))
    );
}

#[test]
fn transaction_for_absent_package_changes_nothing() {
    let mut table = PackageTable::new();
    assert!(table.insert(record("a", "a", 1)));
    let before = table.clone();
    assert_eq!(
        table.increment_downloads_in_transaction(&"zzz".to_string()),
        Err(DownloadError::PackageNotFound { name: "zzz".to_string() })
    );
    assert_eq!(table, before);
}

#[test]
fn shelf_keeps_the_first_content_of_a_version() {
    let mut shelf = BlobShelf::new();
    let v = ArchiveVersion::new(1, 0, 0);
    assert!(shelf.publish(Archive { name: "a".to_string(), version: v.clone(), bytes: vec![1, 2] }));
    assert!(!shelf.publish(Archive { name: "a".to_string(), version: v.clone(), bytes: vec![3] }));
    assert!(shelf.publish(Archive {
        name: "a".to_string(),
        version: ArchiveVersion::new(1, 0, 1),
        bytes: vec![4],
    }));
    let mut reader = shelf.open_read(&"a".to_string(), &v).expect("published");
    assert_eq!(reader.forward_all(vec![]), vec![1, 2]);
    assert!(shelf.open_read(&"b".to_string(), &v).is_none());
    assert!(shelf.open_read(&"a".to_string(), &ArchiveVersion::new(2, 0, 0)).is_none());
}

#[test]
fn reader_hands_out_bounded_chunks_in_order() {
    let mut shelf = BlobShelf::new();
    let v = ArchiveVersion::new(0, 1, 0);
    let bytes: Vec<u8> = (0..10u8).collect();
    assert!(shelf.publish(Archive { name: "a".to_string(), version: v.clone(), bytes }));
    let mut reader = shelf.open_read(&"a".to_string(), &v).expect("published");
    assert!(!reader.is_done());
    assert_eq!(reader.read(4), vec![0, 1, 2, 3]);
    assert_eq!(reader.read(0), Vec::<u8>::new());
    assert_eq!(reader.read(4), vec![4, 5, 6, 7]);
    assert!(!reader.is_done());
    assert_eq!(reader.read(4), vec![8, 9]);
    assert!(reader.is_done());
    assert_eq!(reader.read(4), Vec::<u8>::new());
}

#[test]
fn forward_all_appends_the_rest_to_what_was_received() {
    let mut shelf = BlobShelf::new();
    let v = ArchiveVersion::new(0, 1, 0);
    let bytes: Vec<u8> = (0..(3 * CHUNK_SIZE + 5)).map(|i| (i % 256) as u8).collect();
    assert!(shelf.publish(Archive { name: "a".to_string(), version: v.clone(), bytes: bytes.clone() }));
    let mut reader = shelf.open_read(&"a".to_string(), &v).expect("published");
    let first = reader.read(7);
    assert_eq!(first, bytes[..7].to_vec());
    let body = reader.forward_all(first);
    assert!(body == bytes);
    assert!(reader.is_done());
}
