use alexandrie::blob::{Archive, BlobShelf};
use alexandrie::error::DownloadError;
use alexandrie::metadata::{PackageRecord, PackageTable};
use alexandrie::registry::Registry;
use alexandrie::version::ArchiveVersion;

fn record(name: &str, canonical_name: &str, downloads: i64) -> PackageRecord {
    PackageRecord {
        name: name.to_string(),
        canonical_name: canonical_name.to_string(),
        downloads,
    }
}

fn registry_with_foo(downloads: i64, bytes: Vec<u8>) -> Registry {
    let mut packages = PackageTable::new();
    assert!(packages.insert(record("foo", "foo", downloads)));
    assert!(packages.insert(record("Bar-Baz", "bar_baz", 0)));
    let mut archives = BlobShelf::new();
    assert!(archives.publish(Archive {
        name: "foo".to_string(),
        version: ArchiveVersion::new(1, 2, 3),
        bytes,
    }));
    Registry {
        tokens: vec!["alice-token".to_string(), "bob-token".to_string()],
        packages,
        archives,
    }
}

fn counter(registry: &Registry, canonical_name: &str) -> Option<i64> {
    registry.packages.downloads(&canonical_name.to_string())
}

#[test]
fn authenticated_download_delivers_archive_and_counts_once() {
    let bytes: Vec<u8> = (0..10 * 1024 * 1024usize).map(|i| (i % 251) as u8).collect();
    let mut registry = registry_with_foo(5, bytes.clone());
    let out = registry.download(
        vec!["alice-token".to_string()],
        "foo".to_string(),
        ArchiveVersion::new(1, 2, 3),
    );
    let delivery = out.expect("the archive is there");
    assert_eq!(delivery.status, 200);
    assert_eq!(delivery.content_type, "application/octet-stream");
    assert_eq!(delivery.body.len(), 10 * 1024 * 1024);
    assert!(delivery.body == bytes);
    assert_eq!(counter(&registry, "foo"), Some(6));
    assert_eq!(counter(&registry, "bar_baz"), Some(0));
}

#[test]
fn many_downloads_add_exactly_their_number() {
    let mut registry = registry_with_foo(5, vec![1, 2, 3]);
    let n = 250;
    for i in 0..n {
        let token = if i % 2 == 0 { "alice-token" } else { "bob-token" };
        let out = registry.download(
            vec![token.to_string()],
            "foo".to_string(),
            ArchiveVersion::new(1, 2, 3),
        );
        assert_eq!(out.map(|d| d.body), Ok(vec![1, 2, 3]));
    }
    assert_eq!(counter(&registry, "foo"), Some(5 + n));
    assert_eq!(counter(&registry, "bar_baz"), Some(0));
}

#[test]
fn downloads_of_other_packages_do_not_count() {
    let mut registry = registry_with_foo(5, vec![9]);
    for _ in 0..3 {
        let _ = registry.download(
            vec!["alice-token".to_string()],
            "bar_baz".to_string(),
            ArchiveVersion::new(0, 1, 0),
        );
    }
    let _ = registry.download(
        vec!["alice-token".to_string()],
        "foo".to_string(),
        ArchiveVersion::new(1, 2, 3),
    );
    assert_eq!(counter(&registry, "foo"), Some(6));
    assert_eq!(counter(&registry, "bar_baz"), Some(3));
}

#[test]
fn absent_package_fails_and_moves_no_counter() {
    let mut registry = registry_with_foo(5, vec![1]);
    let before = registry.clone();
    let out = registry.download(
        vec!["alice-token".to_string()],
        "nothing_here".to_string(),
        ArchiveVersion::new(1, 2, 3),
    );
    assert_eq!(
        out,
        Err(DownloadError::PackageNotFound { name: "nothing_here".to_string() })
    );
    assert_eq!(registry, before);
}

#[test]
fn missing_version_fails_after_counting() {
    let mut registry = registry_with_foo(5, vec![1]);
    let out = registry.download(
        vec!["alice-token".to_string()],
        "foo".to_string(),
        ArchiveVersion::new(1, 2, 4),
    );
    assert_eq!(
        out,
        Err(DownloadError::VersionNotFound {
            name: "foo".to_string(),
            version: ArchiveVersion::new(1, 2, 4),
        })
    );
    assert_eq!(counter(&registry, "foo"), Some(6));
}

#[test]
fn missing_version_names_the_stored_package_name() {
    let mut registry = registry_with_foo(5, vec![1]);
    let out = registry.download(
        vec!["bob-token".to_string()],
        "bar_baz".to_string(),
        ArchiveVersion::new(1, 0, 0),
    );
    assert_eq!(
        out,
        Err(DownloadError::VersionNotFound {
            name: "Bar-Baz".to_string(),
            version: ArchiveVersion::new(1, 0, 0),
        })
    );
    assert_eq!(counter(&registry, "bar_baz"), Some(1));
}

#[test]
fn missing_header_is_unauthorized_and_counter_unchanged() {
    let mut registry = registry_with_foo(5, vec![1]);
    let before = registry.clone();
    let out = registry.download(vec![], "foo".to_string(), ArchiveVersion::new(1, 0, 0));
    assert_eq!(out, Err(DownloadError::Unauthorized));
    assert_eq!(DownloadError::Unauthorized.status(), 401);
    assert_eq!(counter(&registry, "foo"), Some(5));
    assert_eq!(registry, before);
}

#[test]
fn unknown_token_is_unauthorized() {
    let mut registry = registry_with_foo(5, vec![1]);
    let out = registry.download(
        vec!["mallory".to_string()],
        "foo".to_string(),
        ArchiveVersion::new(1, 2, 3),
    );
    assert_eq!(out, Err(DownloadError::Unauthorized));
    assert_eq!(counter(&registry, "foo"), Some(5));
}

#[test]
fn only_the_last_token_counts() {
    let mut registry = registry_with_foo(5, vec![1]);
    let out = registry.download(
        vec!["alice-token".to_string(), "mallory".to_string()],
        "foo".to_string(),
        ArchiveVersion::new(1, 2, 3),
    );
    assert_eq!(out, Err(DownloadError::Unauthorized));
    assert_eq!(counter(&registry, "foo"), Some(5));
    let out = registry.download(
        vec!["mallory".to_string(), "alice-token".to_string()],
        "foo".to_string(),
        ArchiveVersion::new(1, 2, 3),
    );
    assert_eq!(out.map(|d| d.status), Ok(200));
    assert_eq!(counter(&registry, "foo"), Some(6));
}

#[test]
fn error_statuses() {
    assert_eq!(DownloadError::Unauthorized.status(), 401);
    assert_eq!(DownloadError::PackageNotFound { name: "a".to_string() }.status(), 404);
    assert_eq!(
        DownloadError::VersionNotFound {
            name: "a".to_string(),
            version: ArchiveVersion::new(0, 0, 1),
        }
        .status(),
        404
    );
    assert_eq!(DownloadError::StoreIoFailure.status(), 500);
}

#[test]
fn empty_archive_is_delivered_empty() {
    let mut registry = registry_with_foo(0, vec![]);
    let out = registry.download(
        vec!["alice-token".to_string()],
        "foo".to_string(),
        ArchiveVersion::new(1, 2, 3),
    );
    assert_eq!(out.map(|d| d.body), Ok(vec![]));
    assert_eq!(counter(&registry, "foo"), Some(1));
}
