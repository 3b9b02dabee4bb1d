use buildout_releaser::config::VersionBumpType;
use buildout_releaser::python::parse_python_version;
use buildout_releaser::version::Version;

#[test]
fn version_parses_additional_python_versions() {
    let v = parse_python_version("1.2").expect("should parse minor-only");
    assert_eq!(v.to_string(), "1.2.0");

    let v = parse_python_version("2.0rc1").expect("should parse rc prerelease");
    assert_eq!(v.to_string(), "2.0.0-rc.1");

    let v = parse_python_version("3.4.post2").expect("should parse post release");
    assert_eq!(v.to_string(), "3.4.0+post2");

    let v = parse_python_version("4.5.dev7").expect("should parse dev prerelease");
    assert_eq!(v.to_string(), "4.5.0-dev.7");

    let v = parse_python_version("1.0+local.tag").expect("should parse local metadata");
    assert_eq!(v.to_string(), "1.0.0+local.tag");

    let v = parse_python_version("4.2.3.1").expect("should parse four-segment release");
    assert_eq!(v.to_string(), "4.2.3+1");

    let v = parse_python_version("4.2.3.1rc1").expect("should parse four-segment rc prerelease");
    assert_eq!(v.to_string(), "4.2.3-rc.1+1");

    let v = parse_python_version("4.2.3.28b3").expect("should parse four-segment beta prerelease");
    assert_eq!(v.to_string(), "4.2.3-beta.3+28");

    let v = parse_python_version("4.2.4.8a2").expect("should parse four-segment alpha prerelease");
    assert_eq!(v.to_string(), "4.2.4-alpha.2+8");

    let v = parse_python_version("2.5").expect("should parse two-segment release");
    assert_eq!(v.to_string(), "2.5.0");

    let v = parse_python_version("7").expect("should parse single-segment release");
    assert_eq!(v.to_string(), "7.0.0");
}

#[test]
fn test_version_parse() {
    let v = Version::parse("1.2.3").unwrap();
    assert_eq!(v.major(), 1);
    assert_eq!(v.minor(), 2);
    assert_eq!(v.patch(), 3);
    assert_eq!(v.prerelease(), None);

    let v = Version::parse("v2.0.0-beta.1").unwrap();
    assert_eq!(v.major(), 2);
    assert_eq!(v.minor(), 0);
    assert_eq!(v.patch(), 0);
    assert_eq!(v.prerelease(), Some("beta.1".to_string()));

    let v = Version::parse("1.2.3+build.5").unwrap();
    assert_eq!(v.build_metadata(), Some("build.5".to_string()));
    assert_eq!(v.to_string(), "1.2.3+build.5");

    let v = Version::parse("4.2.3.1").unwrap();
    assert_eq!(v.to_string(), "4.2.3+1");

    // Also support X.Y format
    let v = Version::parse("1.2").unwrap();
    assert_eq!(v.major(), 1);
    assert_eq!(v.minor(), 2);
    assert_eq!(v.patch(), 0);
}

#[test]
fn test_version_bump() {
    let v = Version::parse("1.2.3").unwrap();

    let major = v.bump(VersionBumpType::Major);
    assert_eq!(major.to_string(), "2.0.0");

    let minor = v.bump(VersionBumpType::Minor);
    assert_eq!(minor.to_string(), "1.3.0");

    let patch = v.bump(VersionBumpType::Patch);
    assert_eq!(patch.to_string(), "1.2.4");
}

#[test]
fn test_version_ordering() {
    let v1 = Version::parse("1.0.0").unwrap();
    let v2 = Version::parse("1.0.1").unwrap();
    let v3 = Version::parse("1.1.0").unwrap();
    let v4 = Version::parse("2.0.0").unwrap();
    let v5 = Version::parse("1.0.0-alpha").unwrap();

    assert!(v1 < v2);
    assert!(v2 < v3);
    assert!(v3 < v4);
    assert!(v5 < v1); // Pre-release is less than release
}

use buildout_releaser::error::ReleaserError;
use buildout_releaser::python::{parse_tolerant, version_from_strict};
use buildout_releaser::version::Order;

fn v(text: &str) -> Version {
    Version::parse(text).unwrap()
}

#[test]
fn release_tuples_order_versions() {
    assert!(v("1.2.3") < v("1.2.4"));
    assert!(v("1.2.4") < v("1.3.0"));
    assert!(v("1.3.0") < v("2.0.0"));
    assert!(v("1.2.3") < v("2.0.0"));
    assert!(v("1.9") < v("1.10"));
    assert_eq!(v("1.2.3").compare(&v("1.2.4")), Order::Less);
    assert_eq!(v("2.0.0").compare(&v("1.3.0")), Order::Greater);
    assert_eq!(v("2.0.0").compare(&v("2.0")), Order::Equal);
}

#[test]
fn pre_releases_come_before_their_release() {
    assert!(v("1.0.0-alpha") < v("1.0.0"));
    assert!(v("2.0rc1") < v("2.0.0"));
    assert!(v("2.0a1") < v("2.0b1"));
    assert!(v("2.0b1") < v("2.0rc1"));
    assert!(v("2.0rc1") < v("2.0rc2"));
    assert!(v("2.0rc2") < v("2.0rc10"));
    assert!(v("4.5.dev7") < v("4.5"));
    assert!(v("1.0.0-1") < v("1.0.0-alpha"));
}

#[test]
fn a_development_version_of_a_pre_release_comes_before_it() {
    assert!(v("2.0rc1.dev2") < v("2.0rc1"));
    assert!(v("2.0rc1.dev2") < v("2.0"));
    assert_eq!(v("2.0rc1.dev2").to_string(), "2.0.0-rc.1.dev.2");
}

#[test]
fn a_fourth_component_does_not_count_in_the_order() {
    let a = v("4.2.3.1");
    let b = v("4.2.3");
    assert_eq!(a.compare(&b), Order::Equal);
    assert!(a == b);
    assert!(!(a < b) && !(b < a));
    assert_eq!(a.to_string(), "4.2.3+1");
    assert_eq!(b.to_string(), "4.2.3");
    assert_eq!(a.build_metadata(), Some("1".to_string()));
    assert_eq!(b.build_metadata(), None);
    assert_eq!(v("1.0+a").compare(&v("1.0+b")), Order::Equal);
    assert_eq!(v("3.4.post2").compare(&v("3.4")), Order::Equal);
}

#[test]
fn bumps_clear_what_is_below() {
    assert_eq!(v("1.2.3").bump(VersionBumpType::Major).to_string(), "2.0.0");
    assert_eq!(v("1.9.9-beta").bump(VersionBumpType::Patch).to_string(), "1.9.10");
    assert_eq!(v("1.9.9-beta+build.1").bump(VersionBumpType::Minor).to_string(), "1.10.0");
    assert_eq!(v("0.0.0").bump(VersionBumpType::Patch).to_string(), "0.0.1");
    let top = Version::from_triple(u64::MAX, 5, u64::MAX);
    assert!(top.checked_bump(VersionBumpType::Major).is_none());
    assert!(top.checked_bump(VersionBumpType::Patch).is_none());
    assert_eq!(
        top.checked_bump(VersionBumpType::Minor).unwrap().to_string(),
        "18446744073709551615.6.0"
    );
    assert!(v("1.2.3") < v("1.2.3").bump(VersionBumpType::Patch));
}

#[test]
fn texts_that_are_no_version() {
    for text in ["", "abc", ".1", "1.", "1.2.", "1..2", "1.2.3-", "1.0rc01", "1.0+a..b", "1.0+a!", "x1", "1.0 2"]
    {
        assert!(parse_python_version(text).is_none(), "{:?}", text);
    }
    match Version::parse("  vnope ") {
        Err(ReleaserError::VersionError(text)) => assert_eq!(text, "nope"),
        _ => panic!("expected a failure"),
    }
    assert!(parse_python_version("99999999999999999999999.1").is_none());
}

#[test]
fn normalizing_before_reading() {
    assert_eq!(v("  v1.2.3  ").to_string(), "1.2.3");
    assert_eq!(v("1_2_3").to_string(), "1.2.3");
    assert_eq!(v("v1.0a").to_string(), "1.0.0-alpha");
    assert_eq!(v("1.0-beta2").to_string(), "1.0.0-beta.2");
    assert_eq!(v("1.0.preview3").to_string(), "1.0.0-rc.3");
    assert_eq!(v("1.0c4").to_string(), "1.0.0-rc.4");
    assert_eq!(v("1.0.post").to_string(), "1.0.0+post0");
    assert_eq!(v("1.0rev7").to_string(), "1.0.0+post7");
    assert_eq!(v("1.0r7.dev").to_string(), "1.0.0-dev+post7");
    assert_eq!(v("1.2.3.4.05").to_string(), "1.2.3+4.05");
    assert_eq!(v("1.0a1.post2.dev3+x.y").to_string(), "1.0.0-alpha.1.dev.3+post2.x.y");
    assert_eq!(v("1.0+").to_string(), "1.0.0");
    assert_eq!(v("1.99999999999999999999999").to_string(), "1.0.0");
}

#[test]
fn the_strict_form_keeps_pre_release_and_build_as_written() {
    let a = v("1.2.3-rc1");
    assert_eq!(a.prerelease(), Some("rc1".to_string()));
    let b = v("1.2.3-rc.1+sha.abc");
    assert_eq!(b.prerelease(), Some("rc.1".to_string()));
    assert_eq!(b.build_metadata(), Some("sha.abc".to_string()));
    assert!(b.is_prerelease());
    assert!(!v("1.2.3").is_prerelease());
    assert_eq!(v("1.2.3-0.x-y.7").to_string(), "1.2.3-0.x-y.7");
}

#[test]
fn reading_by_one_grammar_alone() {
    assert_eq!(parse_tolerant("1.2.3").unwrap().to_string(), "1.2.3");
    assert_eq!(parse_tolerant("2.0rc1").unwrap().to_string(), "2.0.0-rc.1");
    assert!(parse_tolerant("1.2.3-rc.1").is_none());
    assert_eq!(version_from_strict(1, 2, 3, "rc.1", "a.b").unwrap().to_string(), "1.2.3-rc.1+a.b");
    assert_eq!(version_from_strict(1, 2, 3, "", "").unwrap().to_string(), "1.2.3");
    assert!(version_from_strict(1, 2, 3, "99999999999999999999999", "").is_none());
}

#[test]
fn new_and_the_accessors() {
    let a = Version::new(1, 2, 3);
    assert_eq!((a.major(), a.minor(), a.patch()), (1, 2, 3));
    assert_eq!(a.prerelease(), None);
    assert_eq!(a.build_metadata(), None);
    assert_eq!(a.to_string(), "1.2.3");
    assert_eq!(a.duplicate().to_string(), "1.2.3");
    assert_eq!(a, Version::from_triple(1, 2, 3));
}
