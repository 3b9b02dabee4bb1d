use buildout_releaser::buildout::VersionUpdate;
use buildout_releaser::config::{Config, PackageConfig};
use buildout_releaser::error::ReleaserError;
use buildout_releaser::git::GitOps;
use buildout_releaser::release::{
    combine_rendered_changelog_entries, current_date, filter_packages, generate_commit_message,
    generate_release_notes, is_leap_year, resolve_version,
};
use buildout_releaser::version::Version;

fn update(name: &str, old: &str, new: &str) -> VersionUpdate {
    VersionUpdate {
        package_name: name.to_string(),
        old_version: old.to_string(),
        new_version: new.to_string(),
    }
}

#[test]
fn generates_commit_message_with_current_date() {
    let updates = vec![VersionUpdate {
        package_name: "example".to_string(),
        old_version: "0.1.0".to_string(),
        new_version: "0.2.0".to_string(),
    }];

    let message = GitOps::generate_commit_message(&updates, "Release on {date}: {packages}");

    let expected_date = chrono::Local::now().format("%Y-%m-%d").to_string();
    assert!(message.contains(&expected_date));
    assert!(message.contains("example = 0.2.0"));
}

#[test]
fn combines_entries_with_newest_first() {
    let entries = vec![
        "## 1.0.0\n\n- Initial release\n".to_string(),
        "## 1.1.0\n\n- Bug fixes\n".to_string(),
    ];

    let combined = combine_rendered_changelog_entries(entries);

    assert!(combined.starts_with("## 1.1.0"));
    assert!(combined.contains("## 1.0.0"));
    assert!(combined.find("## 1.1.0").unwrap() < combined.find("## 1.0.0").unwrap());
}

#[test]
fn trims_trailing_whitespace_when_combining() {
    let entries = vec![
        "## 2.0.0\n\n- Major updates\n\n".to_string(),
        "## 2.1.0\n\n- Improvements\n\n\n".to_string(),
    ];

    let combined = combine_rendered_changelog_entries(entries);

    assert_eq!(
        combined,
        "## 2.1.0\n\n- Improvements\n\n## 2.0.0\n\n- Major updates"
    );
}

#[test]
fn combining_nothing_gives_nothing() {
    assert_eq!(combine_rendered_changelog_entries(Vec::new()), "");
    assert_eq!(combine_rendered_changelog_entries(vec!["a \n".to_string()]), "a");
}

#[test]
fn commit_message_on_a_date() {
    let updates = vec![update("a", "1", "2"), update("b", "3", "4")];
    assert_eq!(
        GitOps::commit_message_on(&updates, "{date}: {packages}", "2024-05-06"),
        "2024-05-06: a = 2, b = 4"
    );
    assert_eq!(GitOps::commit_message_on(&[], "Use {packages}", "x"), "Use ");
}

#[test]
fn update_run_commit_messages() {
    let one = vec![update("a", "1", "2")];
    let three = vec![update("a", "1", "2"), update("b", "3", "4"), update("c", "5", "6")];
    assert_eq!(generate_commit_message(&[], "Use {packages}", None, "d"), "Use ");
    assert_eq!(generate_commit_message(&one, "Use {packages}", None, "d"), "Use a = 2");
    assert_eq!(
        generate_commit_message(&three, "{packages} on {date}", None, "2024-01-02"),
        "a = 2, b = 4 and c = 6 on 2024-01-02"
    );
    assert_eq!(generate_commit_message(&three, "   ", None, "d"), "Use a = 2, b = 4 and c = 6");
    assert_eq!(generate_commit_message(&three, "{packages}", Some("custom"), "d"), "custom");
}

#[test]
fn release_notes_list_the_updates() {
    assert_eq!(generate_release_notes(&[], "1.0"), "## Release 1.0\n\n");
    assert_eq!(
        generate_release_notes(&[update("a", "1", "2"), update("b", "3", "4")], "1.0"),
        "## Release 1.0\n\n### Package Updates\n\n- **a**: 1 \u{2192} 2\n- **b**: 3 \u{2192} 4\n"
    );
}

#[test]
fn dates_of_known_seconds() {
    assert_eq!(current_date(0), "1970-01-01");
    assert_eq!(current_date(86399), "1970-01-01");
    assert_eq!(current_date(86400), "1970-01-02");
    assert_eq!(current_date(951782400), "2000-02-29");
    assert_eq!(current_date(951868800), "2000-03-01");
    assert_eq!(current_date(1700000000), "2023-11-14");
    assert_eq!(current_date(1735689599), "2024-12-31");
    assert_eq!(current_date(1735689600), "2025-01-01");
    assert_eq!(current_date(4102444800), "2100-01-01");
}

#[test]
fn leap_years() {
    assert!(is_leap_year(2000));
    assert!(is_leap_year(2024));
    assert!(!is_leap_year(1900));
    assert!(!is_leap_year(2023));
}

fn package(name: &str) -> PackageConfig {
    PackageConfig {
        name: name.to_string(),
        version_constraint: None,
        buildout_name: None,
        allow_prerelease: false,
        changelog_url: None,
        include_in_changelog: true,
    }
}

#[test]
fn filters_packages_by_name() {
    let packages = vec![package("a"), package("b"), package("c")];
    let names = |v: Vec<PackageConfig>| v.into_iter().map(|p| p.name).collect::<Vec<_>>();
    assert_eq!(names(filter_packages(&packages, None)), vec!["a", "b", "c"]);
    assert_eq!(names(filter_packages(&packages, Some("c, a"))), vec!["a", "c"]);
    assert_eq!(names(filter_packages(&packages, Some("x"))), Vec::<String>::new());
    assert_eq!(names(filter_packages(&packages, Some(" b "))), vec!["b"]);
}

#[test]
fn resolves_the_version_to_release() {
    let config = Config::create_default();
    let tags = vec!["1.2.3".to_string(), "junk".to_string(), "1.10.0".to_string()];
    assert_eq!(
        resolve_version(&config, &tags, Some("9.9".to_string()), Some("minor".to_string())).unwrap(),
        "9.9"
    );
    assert_eq!(resolve_version(&config, &tags, None, Some("minor".to_string())).unwrap(), "1.11.0");
    assert_eq!(resolve_version(&config, &tags, None, Some("hotfix".to_string())).unwrap(), "1.10.1");
    assert_eq!(
        resolve_version(&config, &Vec::new(), None, Some("breaking".to_string())).unwrap(),
        "1.0.0"
    );
    assert!(matches!(
        resolve_version(&config, &tags, None, None),
        Err(ReleaserError::ConfigError(_))
    ));
    match resolve_version(&config, &tags, None, Some("huge".to_string())) {
        Err(ReleaserError::VersionError(m)) => assert_eq!(
            m,
            "Unknown version level 'huge'. Available: [\"major\", \"minor\", \"patch\", \"fix\", \"hotfix\", \"feature\", \"breaking\"]"
        ),
        _ => panic!("expected a failure"),
    }
}

#[test]
fn version_tags_come_highest_first() {
    let git = GitOps::new().with_work_dir("somewhere");
    assert_eq!(git.directory(), Some("somewhere"));
    assert_eq!(GitOps::new().directory(), None);
    let tags: Vec<String> = ["v1.0.0", "v1.2.0", "other", "v1.2.0-rc1", "1.5.0", "v1.10.0", "v1.2"]
        .iter()
        .map(|t| t.to_string())
        .collect();
    let found = git.get_version_tags(&tags, "v");
    let names: Vec<&str> = found.iter().map(|p| p.0.as_str()).collect();
    assert_eq!(names, vec!["v1.10.0", "v1.2.0", "v1.2", "v1.2.0-rc1", "v1.0.0"]);
    assert_eq!(git.get_latest_version(&tags, "v"), Some(Version::new(1, 10, 0)));
    assert_eq!(git.get_latest_version(&tags, "release-"), None);
    let all = git.get_version_tags(&tags, "");
    assert_eq!(all.len(), 6);
    assert_eq!(all[0].0, "v1.10.0");
}

#[test]
fn arguments_for_git() {
    let git = GitOps::new();
    assert_eq!(git.tag("v1", Some("Release 1")), vec!["tag", "-a", "v1", "-m", "Release 1"]);
    assert_eq!(git.tag("v1", None), vec!["tag", "v1"]);
    assert_eq!(git.push(false), vec![vec!["push"]]);
    assert_eq!(git.push(true), vec![vec!["push"], vec!["push", "--tags"]]);
    assert_eq!(git.tags(None), vec!["tag", "-l"]);
    assert_eq!(git.tags(Some("v*")), vec!["tag", "-l", "v*"]);
    assert_eq!(GitOps::tag_names("v1\nv2\r\nv3"), vec!["v1", "v2", "v3"]);
    assert!(GitOps::tag_names("").is_empty());
    assert_eq!(git.show_file_at_ref("v1", "versions.cfg"), vec!["show", "v1:versions.cfg"]);
    assert_eq!(
        buildout_releaser::git::GitHubOps::create_release("v1", Some("T"), None, true, false),
        vec!["release", "create", "v1", "--title", "T", "--draft"]
    );
    assert_eq!(
        buildout_releaser::git::GitHubOps::create_release("v1", None, Some("N"), false, true),
        vec!["release", "create", "v1", "--notes", "N", "--prerelease"]
    );
}
