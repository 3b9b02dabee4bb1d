use buildout_releaser::constraint::{normalize_constraint_part, parse_version_constraint};
use buildout_releaser::error::ReleaserError;
use buildout_releaser::pypi::{
    select_latest_version, select_matching_version, PackageInfo, PyPiPackageInfo, ReleaseInfo,
};
use buildout_releaser::python::parse_python_version;
use buildout_releaser::version::Version;

#[test]
fn pypi_parses_additional_python_versions() {
    let v = parse_python_version("1.2").expect("should parse minor-only");
    assert_eq!(v.to_string(), "1.2.0");

    let v = parse_python_version("2.0rc1").expect("should parse rc prerelease");
    assert_eq!(v.to_string(), "2.0.0-rc.1");

    let v = parse_python_version("3.4.post2").expect("should parse post release");
    assert_eq!(v.to_string(), "3.4.0+post2");

    let v = parse_python_version("4.5.dev7").expect("should parse dev prerelease");
    assert_eq!(v.to_string(), "4.5.0-dev.7");

    let v = parse_python_version("1.0+local.tag").expect("should parse local metadata");
    assert_eq!(v.to_string(), "1.0.0+local.tag");

    let v = parse_python_version("4.2.3.1").expect("should parse four-segment release");
    assert_eq!(v.to_string(), "4.2.3+1");

    let v = parse_python_version("2.5").expect("should parse two-segment release");
    assert_eq!(v.to_string(), "2.5.0");

    let v = parse_python_version("7").expect("should parse single-segment release");
    assert_eq!(v.to_string(), "7.0.0");
}

#[test]
fn pypi_parses_wildcard_constraints() {
    let (req, exclusions) =
        parse_version_constraint("==3.8.*").expect("should parse wildcard equality");
    let matches = req.matches(&Version::parse("3.8.5").unwrap());
    assert!(matches, "should accept version within wildcard range");
    assert!(exclusions.is_empty());

    let (req, exclusions) =
        parse_version_constraint("!=2.*").expect("should parse wildcard inequality");
    assert!(req.matches(&Version::parse("1.9.9").unwrap()));
    assert_eq!(exclusions.len(), 1);
    let (lower, upper) = &exclusions[0];
    assert_eq!(lower, &Version::new(2, 0, 0));
    assert_eq!(upper, &Version::new(3, 0, 0));
}

#[test]
fn pypi_parses_partial_comparators() {
    let (req, exclusions) =
        parse_version_constraint(">=3.8").expect("should parse partial comparator");
    assert!(req.matches(&Version::parse("3.8.1").unwrap()));
    assert!(exclusions.is_empty());

    let (req, exclusions) =
        parse_version_constraint("~=3.8").expect("should parse compatible release");
    assert!(req.matches(&Version::parse("3.8.9").unwrap()));
    assert!(!req.matches(&Version::parse("4.0.0").unwrap()));
    assert!(exclusions.is_empty());
}

#[test]
fn pypi_normalizes_constraint_parts() {
    let (normalized, exclusions) = normalize_constraint_part("==1.2").unwrap();
    assert_eq!(normalized, "=1.2.0");
    assert!(exclusions.is_empty());

    let (normalized, exclusions) = normalize_constraint_part("< 1").unwrap();
    assert_eq!(normalized, "<1.0.0");
    assert!(exclusions.is_empty());
}

fn file(yanked: bool) -> ReleaseInfo {
    ReleaseInfo {
        filename: "f.whl".to_string(),
        url: "https://example.org/f.whl".to_string(),
        upload_time: "2024-01-01T00:00:00".to_string(),
        yanked,
    }
}

fn index() -> PyPiPackageInfo {
    PyPiPackageInfo {
        info: PackageInfo {
            name: "Example".to_string(),
            version: "2.0.0".to_string(),
            summary: None,
            home_page: None,
            project_urls: None,
        },
        releases: vec![
            ("1.0".to_string(), vec![file(false)]),
            ("2.0rc1".to_string(), vec![file(false)]),
            ("1.5.0".to_string(), vec![file(true), file(false)]),
            ("3.0".to_string(), vec![file(true)]),
            ("2.1".to_string(), vec![]),
            ("not-a-version".to_string(), vec![file(false)]),
            ("1.5".to_string(), vec![file(false)]),
        ],
    }
}

#[test]
fn latest_version_skips_yanked_empty_and_unreadable_releases() {
    let found = select_latest_version(&index(), "example", false).unwrap();
    assert_eq!(found.package_name, "Example");
    assert_eq!(found.version, "1.5.0");
    assert!(!found.is_prerelease);

    let found = select_latest_version(&index(), "example", true).unwrap();
    assert_eq!(found.version, "2.0rc1");
    assert!(found.is_prerelease);
}

#[test]
fn matching_version_meets_the_constraint() {
    let found = select_matching_version(&index(), "example", "<1.5", false).unwrap();
    assert_eq!(found.version, "1.0");
    let found = select_matching_version(&index(), "example", "~=1.0", false).unwrap();
    assert_eq!(found.version, "1.5.0");
    let found = select_matching_version(&index(), "example", "!=1.5.*", false).unwrap();
    assert_eq!(found.version, "1.0");
    match select_matching_version(&index(), "example", ">=5", false) {
        Err(ReleaserError::PyPiError(m)) => {
            assert_eq!(m, "No versions matching '>=5' for example")
        }
        _ => panic!("expected a failure"),
    }
    match select_matching_version(&index(), "example", ">=1 || <2", false) {
        Err(ReleaserError::ConstraintError(m)) => assert_eq!(m, ">=1 || <2"),
        _ => panic!("expected a failure"),
    }
}

#[test]
fn no_usable_release_is_a_failure() {
    let mut empty = index();
    empty.releases.clear();
    match select_latest_version(&empty, "example", true) {
        Err(ReleaserError::PyPiError(m)) => assert_eq!(m, "No valid versions found for example"),
        _ => panic!("expected a failure"),
    }
}
