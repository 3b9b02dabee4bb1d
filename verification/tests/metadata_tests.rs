use buildout_releaser::config::{ChangelogConfig, MetadataFileConfig};
use buildout_releaser::error::ReleaserError;
use buildout_releaser::metadata::{kind_from_name, MetadataKind, MetadataUpdate, MetadataUpdater};
use buildout_releaser::sources::{
    changelog_branches, changelog_urls, github_changelog_urls, github_repository,
    looks_like_changelog, package_url, reads_like,
};

fn config(format: &str) -> MetadataFileConfig {
    MetadataFileConfig {
        path: "publiccode.yml".to_string(),
        format: format.to_string(),
        version_fields: vec!["softwareVersion".to_string(), "info.version".to_string()],
        date_fields: vec!["releaseDate".to_string()],
        include_in_commit: true,
    }
}

#[test]
fn yaml_fields_keep_their_quoting() {
    let text = "name: x\nsoftwareVersion: \"1.0\" # current\nreleaseDate: '2024-01-01'\nversion: 1.0 # bare\n";
    assert_eq!(
        MetadataUpdater::update_yaml_field(text, "softwareVersion", "1.1"),
        "name: x\nsoftwareVersion: \"1.1\" # current\nreleaseDate: '2024-01-01'\nversion: 1.0 # bare\n"
    );
    assert_eq!(
        MetadataUpdater::update_yaml_field(text, "releaseDate", "2024-02-02"),
        "name: x\nsoftwareVersion: \"1.0\" # current\nreleaseDate: '2024-02-02'\nversion: 1.0 # bare\n"
    );
    assert_eq!(
        MetadataUpdater::update_yaml_field(text, "version", "1.1"),
        "name: x\nsoftwareVersion: \"1.0\" # current\nreleaseDate: '2024-01-01'\nversion: 1.1\n"
    );
    assert_eq!(MetadataUpdater::update_yaml_field(text, "missing", "1.1"), text);
    assert_eq!(
        MetadataUpdater::update_yaml_field("  a:\n    version:   2\n", "version", "3"),
        "  a:\n    version:   3\n"
    );
}

#[test]
fn a_yaml_file_is_rewritten_as_text() {
    let text = "softwareVersion: 1.0\nreleaseDate: \"2024-01-01\"\n";
    match MetadataUpdater::update_file(&config("YAML"), text, "1.1", "2024-02-02").unwrap() {
        MetadataUpdate::Text(t) => {
            assert_eq!(t, "softwareVersion: 1.1\nreleaseDate: \"2024-02-02\"\n")
        }
        _ => panic!("expected a text"),
    }
    assert_eq!(
        MetadataUpdater::update_yaml(&config("yml"), text, "1.1", "2024-02-02"),
        "softwareVersion: 1.1\nreleaseDate: \"2024-02-02\"\n"
    );
}

#[test]
fn structured_files_get_assignments() {
    for (name, kind) in [("json", MetadataKind::Json), ("Toml", MetadataKind::Toml)] {
        match MetadataUpdater::update_file(&config(name), "{}", "1.1", "2024-02-02").unwrap() {
            MetadataUpdate::Fields(k, assignments) => {
                assert_eq!(k, kind);
                assert_eq!(
                    assignments,
                    vec![
                        (vec!["softwareVersion".to_string()], "1.1".to_string()),
                        (vec!["info".to_string(), "version".to_string()], "1.1".to_string()),
                        (vec!["releaseDate".to_string()], "2024-02-02".to_string()),
                    ]
                );
            }
            _ => panic!("expected assignments"),
        }
    }
}

#[test]
fn unknown_formats_fail() {
    match MetadataUpdater::update_file(&config("xml"), "", "1", "d") {
        Err(ReleaserError::ConfigError(m)) => assert_eq!(m, "Unsupported metadata format: xml"),
        _ => panic!("expected a failure"),
    }
    assert_eq!(kind_from_name("yml"), Some(MetadataKind::Yaml));
    assert_eq!(kind_from_name("YAML"), None);
}

#[test]
fn texts_that_read_like_changelogs() {
    assert!(looks_like_changelog("Project\n\nChangeLog\n---\n"));
    assert!(looks_like_changelog("RELEASE NOTES for you"));
    assert!(looks_like_changelog("a\n## [1.2] first\n"));
    assert!(looks_like_changelog("# 0.1"));
    assert!(!looks_like_changelog("A package that does things.\n# Install\n"));
    assert!(!looks_like_changelog("## 12\n"));
    assert!(reads_like("history", "HISTORY"));
    assert!(!reads_like("nothing", "HISTORY"));
}

#[test]
fn repositories_named_by_addresses() {
    assert_eq!(
        github_repository("https://github.com/plone/plone.api"),
        Some(("plone".to_string(), "plone.api".to_string()))
    );
    assert_eq!(
        github_repository("git+https://github.com/owner/repo.git/tree/main"),
        Some(("owner".to_string(), "repo".to_string()))
    );
    assert_eq!(
        github_repository("https://github.com/owner/repo.git.git"),
        Some(("owner".to_string(), "repo".to_string()))
    );
    assert_eq!(github_repository("https://github.com/owner"), None);
    assert_eq!(github_repository("https://github.com//repo"), None);
    assert_eq!(github_repository("https://example.org/owner/repo"), None);
}

#[test]
fn addresses_to_try_in_order() {
    let branches = vec!["main".to_string(), "dev".to_string()];
    let files = vec!["CHANGES.md".to_string(), "HISTORY.txt".to_string()];
    assert_eq!(
        github_changelog_urls("o", "r", &branches, &files),
        vec![
            "https://raw.githubusercontent.com/o/r/main/CHANGES.md",
            "https://raw.githubusercontent.com/o/r/main/HISTORY.txt",
            "https://raw.githubusercontent.com/o/r/dev/CHANGES.md",
            "https://raw.githubusercontent.com/o/r/dev/HISTORY.txt",
        ]
    );
    let links = vec![
        ("Source".to_string(), "https://github.com/o/r".to_string()),
        ("History".to_string(), "https://example.org/history".to_string()),
        ("Homepage".to_string(), "https://example.org".to_string()),
        ("Changelog".to_string(), "https://example.org/changes".to_string()),
    ];
    let one_branch = vec!["main".to_string()];
    let one_file = vec!["C.md".to_string()];
    assert_eq!(
        changelog_urls(&links, Some("https://github.com/h/p/".to_string()), &one_branch, &one_file),
        vec![
            "https://example.org/changes",
            "https://example.org/history",
            "https://raw.githubusercontent.com/o/r/main/C.md",
            "https://raw.githubusercontent.com/h/p/main/C.md",
        ]
    );
    assert!(changelog_urls(&Vec::new(), None, &one_branch, &one_file).is_empty());
    let mut config = ChangelogConfig::default();
    config.github_branches = vec!["develop".to_string()];
    assert_eq!(changelog_branches(&config), vec!["main", "master", "develop"]);
    assert_eq!(package_url("https://pypi.org/pypi", "six"), "https://pypi.org/pypi/six/json");
}
