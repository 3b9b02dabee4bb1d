use buildout_releaser::changelog::ChangelogEntry;
use buildout_releaser::config::{ChangelogConfig, ChangelogFormat};
use buildout_releaser::consolidated::{ConsolidatedChangelog, PackageChangelog};

fn sample() -> ConsolidatedChangelog {
    ConsolidatedChangelog::new(
        "1.4.0",
        "2024-05-06",
        vec![
            PackageChangelog {
                package_name: "plone.api".to_string(),
                old_version: "2.0.0".to_string(),
                new_version: "2.1.0".to_string(),
                entries: vec![
                    ChangelogEntry {
                        version: "2.1.0".to_string(),
                        date: Some("2024-05-01".to_string()),
                        content: "- one\n- two".to_string(),
                    },
                    ChangelogEntry {
                        version: "2.0.1".to_string(),
                        date: None,
                        content: "- fix".to_string(),
                    },
                ],
                raw_content: None,
            },
            PackageChangelog {
                package_name: "six".to_string(),
                old_version: "1.15".to_string(),
                new_version: "1.16".to_string(),
                entries: vec![],
                raw_content: Some("raw".to_string()),
            },
        ],
    )
}

#[test]
fn markdown_form() {
    assert_eq!(
        sample().to_markdown(),
        "# Release 1.4.0\n\n**Date:** 2024-05-06\n\n## Package Updates\n\n\
### plone.api (2.0.0 \u{2192} 2.1.0)\n\n\
#### Version 2.1.0 (2024-05-01)\n\n- one\n- two\n\n\
#### Version 2.0.1\n\n- fix\n\n\
### six (1.15 \u{2192} 1.16)\n\n*No changelog entries found.*\n\n"
    );
    assert_eq!(sample().render(ChangelogFormat::Markdown), sample().to_markdown());
}

#[test]
fn rst_form() {
    assert_eq!(
        sample().to_rst(),
        "Release 1.4.0\n=============\n\n**Date:** 2024-05-06\n\nPackage Updates\n---------------\n\n\
plone.api (2.0.0 \u{2192} 2.1.0)\n~~~~~~~~~~~~~~~~~~~~~~~~~~~\n\n\
Version 2.1.0 (2024-05-01)\n^^^^^^^^^^^^^^^^^^^^^^^^^^\n\n- one\n- two\n\n\
Version 2.0.1\n^^^^^^^^^^^^^\n\n- fix\n\n\
six (1.15 \u{2192} 1.16)\n~~~~~~~~~~~~~~~~~~~\n\n*No changelog entries found.*\n\n"
    );
    assert_eq!(sample().render(ChangelogFormat::Rst), sample().to_rst());
}

#[test]
fn plain_form() {
    let rule = "=".repeat(60);
    let dashes = "-".repeat(40);
    assert_eq!(
        sample().to_text(),
        format!(
            "RELEASE 1.4.0 (2024-05-06)\n{rule}\n\n\
plone.api: 2.0.0 \u{2192} 2.1.0\n{dashes}\n\n  Version 2.1.0 (2024-05-01):\n    - one\n    - two\n\n  Version 2.0.1:\n    - fix\n\n\
six: 1.15 \u{2192} 1.16\n{dashes}\n  No changelog entries found.\n\n",
            rule = rule,
            dashes = dashes
        )
    );
    assert_eq!(sample().render(ChangelogFormat::Text), sample().to_text());
}

#[test]
fn templates_of_the_configuration() {
    let mut config = ChangelogConfig::default();
    config.header_template = "{version}/{date}/{version}".to_string();
    config.package_template = "{package}:{old_version}>{new_version}".to_string();
    let changelog = ConsolidatedChangelog::with_templates("1", "d", sample().package_changelogs, &config);
    assert!(changelog.to_markdown().starts_with("1/d/1\n\nplone.api:2.0.0>2.1.0\n\n"));
}

#[test]
fn prepending_to_a_markdown_changelog_without_title() {
    let result = ConsolidatedChangelog::prepend_to_changelog(
        "## Release 2\n\n- b\n",
        "\n## Release 1\n\n- a\n",
        ChangelogFormat::Markdown,
    );
    assert_eq!(result, "\n## Release 2\n\n- b\n\n## Release 1\n\n- a\n");
    let result = ConsolidatedChangelog::prepend_to_changelog(
        " new \n",
        "# Changelog\n\nintro\n\n## Release 1\n",
        ChangelogFormat::Markdown,
    );
    assert_eq!(result, "# Changelog\n\nnew\n\nintro\n\n## Release 1\n");
    let result = ConsolidatedChangelog::prepend_to_changelog("new", "", ChangelogFormat::Markdown);
    assert_eq!(result, "new\n\n");
}

#[test]
fn prepending_to_an_rst_changelog() {
    let existing = "Changelog\n=========\n\nRelease 1\n---------\n\n- a\n";
    let result = ConsolidatedChangelog::prepend_to_changelog(
        "Release 2\n---------\n\n- b\n",
        existing,
        ChangelogFormat::Rst,
    );
    assert_eq!(
        result,
        "Changelog\n=========\n\nRelease 2\n---------\n\n- b\n\nRelease 1\n---------\n\n- a\n"
    );
    let result =
        ConsolidatedChangelog::prepend_to_changelog("new", "no title\nhere\n", ChangelogFormat::Rst);
    assert_eq!(result, "no title\nhere\nnew\n\n");
}

#[test]
fn prepending_to_a_plain_changelog() {
    let result =
        ConsolidatedChangelog::prepend_to_changelog(" new \n", "old\n", ChangelogFormat::Text);
    assert_eq!(result, format!("new\n{}\nold\n", "=".repeat(60)));
}

#[test]
fn file_headers() {
    assert_eq!(
        ConsolidatedChangelog::add_file_header("x", ChangelogFormat::Rst),
        "Changelog\n=========\n\nx"
    );
    assert_eq!(
        ConsolidatedChangelog::add_file_header("x", ChangelogFormat::Text),
        format!("CHANGELOG\n{}\n\nx", "=".repeat(60))
    );
    assert_eq!(
        ConsolidatedChangelog::add_file_header("x", ChangelogFormat::Markdown),
        "# Changelog\n\nAll notable changes to this project will be documented in this file.\n\nx"
    );
}
