use alexandrie::names::canonical_name;
use alexandrie::version::ArchiveVersion;

#[test]
fn parse_reads_the_three_numbers() {
    let v = ArchiveVersion::parse("1.2.3").expect("a version");
    assert_eq!((v.major, v.minor, v.patch), (1, 2, 3));
    assert_eq!(v.pre, "");
    assert_eq!(v.build, "");
    assert_eq!(v, ArchiveVersion::new(1, 2, 3));
}

#[test]
fn parse_reads_prerelease_and_build() {
    let v = ArchiveVersion::parse("10.0.7-alpha.1+build.5").expect("a version");
    assert_eq!((v.major, v.minor, v.patch), (10, 0, 7));
    assert_eq!(v.pre, "alpha.1");
    assert_eq!(v.build, "build.5");
}

#[test]
fn parse_refuses_what_is_no_version() {
    assert_eq!(ArchiveVersion::parse(""), None);
    assert_eq!(ArchiveVersion::parse("1.2"), None);
    assert_eq!(ArchiveVersion::parse("latest"), None);
    assert_eq!(ArchiveVersion::parse("1.2.3-"), None);
    assert_eq!(ArchiveVersion::parse("23456789999999999999.0.0"), None);
}

#[test]
fn same_compares_all_parts() {
    let a = ArchiveVersion::parse("1.2.3-rc.1").expect("a version");
    let b = ArchiveVersion::parse("1.2.3-rc.1").expect("a version");
    let c = ArchiveVersion::parse("1.2.3-rc.2").expect("a version");
    let d = ArchiveVersion::parse("1.2.3-rc.1+x").expect("a version");
    assert!(a.same(&b));
    assert!(!a.same(&c));
    assert!(!a.same(&d));
    assert!(!a.same(&ArchiveVersion::new(1, 2, 3)));
    assert_eq!(a.duplicate(), a);
}

#[test]
fn canonical_name_folds_case_and_separators() {
    assert_eq!(canonical_name("Foo-Bar"), "foo_bar");
    assert_eq!(canonical_name("foo_bar"), "foo_bar");
    assert_eq!(canonical_name("FOO-bar_Baz-9"), "foo_bar_baz_9");
    assert_eq!(canonical_name(""), "");
    assert_eq!(canonical_name("serde"), "serde");
}
