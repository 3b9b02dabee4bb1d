use buildout_releaser::cli::CliChangelogFormat;
use buildout_releaser::config::{
    default_changelog_files, default_changelog_format, default_changelog_header,
    default_commit_template, default_date_fields, default_metadata_format,
    default_package_template, default_true, default_version_fields, default_version_levels,
    default_version_pattern, format_from_name, ChangelogConfig, ChangelogFormat, Config,
    GitConfig, GitHubConfig, VersionBumpType, VersionConfig,
};
use buildout_releaser::error::ReleaserError;
use buildout_releaser::manager::VersionManager;

#[test]
fn defaults_of_every_section() {
    assert_eq!(default_commit_template(), "Use {packages}");
    assert_eq!(default_changelog_format(), "markdown");
    assert!(default_true());
    assert_eq!(
        default_changelog_header(),
        "# Release {version}\n\n**Date:** {date}\n\n## Package Updates"
    );
    assert_eq!(default_package_template(), "### {package} ({old_version} \u{2192} {new_version})");
    assert_eq!(default_changelog_files().len(), 14);
    assert_eq!(default_changelog_files()[0], "CHANGELOG.md");
    assert_eq!(default_changelog_files()[13], "docs/history.md");
    assert_eq!(default_version_pattern(), r#"(?m)^version\s*=\s*["']?(\d+\.\d+\.\d+)["']?"#);
    assert_eq!(default_metadata_format(), "yaml");
    assert_eq!(default_version_fields(), vec!["softwareVersion", "version"]);
    assert_eq!(default_date_fields(), vec!["releaseDate"]);
    assert_eq!(default_version_levels().len(), 7);

    let git = GitConfig::default();
    assert_eq!(git.branch, None);
    assert!(!git.auto_push);
    assert_eq!(git.commit_template, "Use {packages}");
    let github = GitHubConfig::default();
    assert_eq!(github.repository, None);
    assert!(github.create_release);
    assert_eq!(github.tag_prefix, "");
    let changelog = ChangelogConfig::default();
    assert!(!changelog.enabled);
    assert_eq!(changelog.output_file, Some("CHANGELOG.md".to_string()));
    assert!(changelog.include_in_commit && changelog.use_as_release_notes);
    assert!(changelog.github_branches.is_empty());
    assert_eq!(VersionConfig::default().levels.len(), 7);
}

#[test]
fn the_settings_of_a_new_project() {
    let config = Config::create_default();
    assert_eq!(config.versions_file, "versions.cfg");
    assert_eq!(config.packages.len(), 1);
    assert_eq!(config.packages[0].name, "example-package");
    assert_eq!(config.packages[0].buildout_name(), "example-package");
    assert!(config.packages[0].include_in_changelog);
    assert_eq!(config.metadata_files.len(), 1);
    assert_eq!(config.metadata_files[0].path, "publiccode.yml");
    assert_eq!(config.metadata_files[0].version_fields, vec!["softwareVersion"]);
    assert_eq!(config.metadata_files[0].date_fields, vec!["releaseDate"]);
}

#[test]
fn the_buildout_name_stands_in_for_the_package_name() {
    let mut package = Config::create_default().packages.remove(0);
    package.buildout_name = Some("Example".to_string());
    assert_eq!(package.buildout_name(), "Example");
    assert_eq!(package.duplicate().buildout_name(), "Example");
}

#[test]
fn a_blank_commit_template_falls_back() {
    let mut git = GitConfig::default();
    assert_eq!(git.effective_commit_template(), "Use {packages}");
    git.commit_template = " \t\n".to_string();
    assert_eq!(git.effective_commit_template(), "Use {packages}");
    git.commit_template = "Bump {packages}".to_string();
    assert_eq!(git.effective_commit_template(), "Bump {packages}");
}

#[test]
fn changelog_formats_by_name() {
    let mut config = ChangelogConfig::default();
    assert_eq!(config.format_enum(), ChangelogFormat::Markdown);
    for (name, format) in [
        ("RST", ChangelogFormat::Rst),
        ("reStructuredText", ChangelogFormat::Rst),
        ("Text", ChangelogFormat::Text),
        ("TXT", ChangelogFormat::Text),
        ("plain", ChangelogFormat::Text),
        ("md", ChangelogFormat::Markdown),
        ("", ChangelogFormat::Markdown),
    ] {
        config.format = name.to_string();
        assert_eq!(config.format_enum(), format, "{}", name);
    }
    assert_eq!(format_from_name("rst"), ChangelogFormat::Rst);
    assert_eq!(format_from_name("RST"), ChangelogFormat::Markdown);
    assert_eq!(ChangelogFormat::from(CliChangelogFormat::Markdown), ChangelogFormat::Markdown);
    assert_eq!(ChangelogFormat::from(CliChangelogFormat::Rst), ChangelogFormat::Rst);
    assert_eq!(ChangelogFormat::from(CliChangelogFormat::Text), ChangelogFormat::Text);
}

#[test]
fn bump_levels_by_name() {
    let config = VersionConfig::default();
    let manager = VersionManager::new(&config);
    assert_eq!(manager.get_bump_type("major").unwrap(), VersionBumpType::Major);
    assert_eq!(manager.get_bump_type("feature").unwrap(), VersionBumpType::Minor);
    assert_eq!(manager.get_bump_type("fix").unwrap(), VersionBumpType::Patch);
    assert!(matches!(manager.get_bump_type("Major"), Err(ReleaserError::VersionError(_))));
    let levels = manager.available_levels();
    assert_eq!(levels.len(), 7);
    assert_eq!(levels[0], ("major".to_string(), VersionBumpType::Major));
    assert_eq!(levels[6], ("breaking".to_string(), VersionBumpType::Major));
}
