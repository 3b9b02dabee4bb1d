use buildout_releaser::buildout::BuildoutVersions;
use buildout_releaser::error::ReleaserError;

fn sample() -> String {
    r#"
[buildout]
parts =
    app

[versions]
# Some comment
zope.interface = 5.4.0
plone.api = 2.0.0

[versions:python3]
six = 1.16.0
"#
    .to_string()
}

#[test]
fn test_parse_versions() {
    let versions = BuildoutVersions::from_content(sample(), "versions.cfg".to_string()).unwrap();

    assert_eq!(versions.get_version("zope.interface"), Some("5.4.0".to_string()));
    assert_eq!(versions.get_version("plone.api"), Some("2.0.0".to_string()));
    assert_eq!(versions.get_version("six"), Some("1.16.0".to_string()));
}

#[test]
fn pins_outside_version_sections_are_not_read() {
    let versions = BuildoutVersions::from_content(sample(), "versions.cfg".to_string()).unwrap();
    assert_eq!(versions.get_version("parts"), None);
    assert_eq!(versions.get_version("app"), None);
    assert_eq!(
        versions.get_all_versions(),
        vec![
            ("zope.interface".to_string(), "5.4.0".to_string()),
            ("plone.api".to_string(), "2.0.0".to_string()),
            ("six".to_string(), "1.16.0".to_string()),
        ]
    );
    assert_eq!(versions.content(), sample());
    assert_eq!(versions.path(), "versions.cfg");
}

#[test]
fn a_later_pin_replaces_an_earlier_one() {
    let content = "[versions]\na = 1.0\nb = 2.0 # pinned\na = 1.1\n".to_string();
    let versions = BuildoutVersions::from_content(content, "v.cfg".to_string()).unwrap();
    assert_eq!(versions.get_version("a"), Some("1.1".to_string()));
    assert_eq!(versions.get_version("b"), Some("2.0".to_string()));
    assert_eq!(versions.get_all_versions().len(), 2);
}

#[test]
fn update_rewrites_the_pin_and_reports_the_change() {
    let mut versions = BuildoutVersions::from_content(sample(), "versions.cfg".to_string()).unwrap();
    let update = versions.update_version("plone.api", "2.1.0").unwrap().unwrap();
    assert_eq!(update.package_name, "plone.api");
    assert_eq!(update.old_version, "2.0.0");
    assert_eq!(update.new_version, "2.1.0");
    assert_eq!(versions.get_version("plone.api"), Some("2.1.0".to_string()));
    assert_eq!(versions.content(), sample().replace("plone.api = 2.0.0", "plone.api = 2.1.0"));
    assert!(versions.update_version("plone.api", "2.1.0").unwrap().is_none());
    assert!(versions.update_version("unknown", "1.0").unwrap().is_none());
    assert_eq!(versions.content(), sample().replace("plone.api = 2.0.0", "plone.api = 2.1.0"));
}

#[test]
fn update_keeps_comments_and_layout() {
    let content = "[versions]\n  a   =   1.0   # keep me\na.b = 1.0\n".to_string();
    let mut versions = BuildoutVersions::from_content(content, "v.cfg".to_string()).unwrap();
    versions.update_version("a", "1.0.1").unwrap();
    assert_eq!(versions.content(), "[versions]\n  a   =   1.0.1   # keep me\na.b = 1.0\n");
    versions.update_version("a.b", "2").unwrap();
    assert_eq!(versions.content(), "[versions]\n  a   =   1.0.1   # keep me\na.b = 2\n");
}

#[test]
fn add_puts_the_pin_at_the_end_of_the_versions_section() {
    let mut versions = BuildoutVersions::from_content(sample(), "versions.cfg".to_string()).unwrap();
    assert_eq!(versions.add_version("requests", "2.31.0").unwrap(), true);
    assert_eq!(versions.get_version("requests"), Some("2.31.0".to_string()));
    assert_eq!(
        versions.content(),
        sample().replace("plone.api = 2.0.0\n", "plone.api = 2.0.0\nrequests = 2.31.0\n")
    );
    assert_eq!(versions.add_version("requests", "3.0").unwrap(), false);
    assert_eq!(versions.add_version("six", "3.0").unwrap(), false);
}

#[test]
fn add_appends_where_no_section_follows() {
    let mut versions =
        BuildoutVersions::from_content("[versions]\na = 1\n".to_string(), "v.cfg".to_string())
            .unwrap();
    assert!(versions.add_version("b", "2").unwrap());
    assert_eq!(versions.content(), "[versions]\na = 1\nb = 2\n");
}

#[test]
fn add_needs_a_versions_section() {
    let mut versions =
        BuildoutVersions::from_content("[buildout]\nparts = app\n".to_string(), "v.cfg".to_string())
            .unwrap();
    match versions.add_version("b", "2") {
        Err(ReleaserError::BuildoutParseError(m)) => {
            assert_eq!(m, "Could not find [versions] section")
        }
        _ => panic!("expected a failure"),
    }
    assert_eq!(versions.content(), "[buildout]\nparts = app\n");
}
