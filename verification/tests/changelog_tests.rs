use buildout_releaser::changelog::{
    compare_versions, normalize_version, parse_changelog, select_entries,
    try_parse_generic_changelog, try_parse_markdown_changelog, try_parse_rst_changelog, Style,
};
use buildout_releaser::config::ChangelogFormat;
use buildout_releaser::consolidated::ConsolidatedChangelog;

#[test]
fn test_normalize_version() {
    assert_eq!(normalize_version("1.2.3"), vec![1, 2, 3]);
    assert_eq!(normalize_version("v1.2.3"), vec![1, 2, 3]);
    assert_eq!(normalize_version("1.2.3a1"), vec![1, 2, 3, 1]);
    assert_eq!(normalize_version("1.2"), vec![1, 2]);
}

#[test]
fn test_compare_versions() {
    assert_eq!(compare_versions(&vec![1, 2, 3], &vec![1, 2, 3]), 0);
    assert_eq!(compare_versions(&vec![1, 2, 3], &vec![1, 2, 4]), -1);
    assert_eq!(compare_versions(&vec![1, 2, 4], &vec![1, 2, 3]), 1);
    assert_eq!(compare_versions(&vec![1, 2], &vec![1, 2, 0]), 0);
    assert_eq!(compare_versions(&vec![2, 0, 0], &vec![1, 9, 9]), 1);
}

#[test]
fn test_prepend_to_markdown_changelog() {
    let existing = r#"# Changelog

## Release 1.0.0

**Date:** 2024-01-01

- Initial release
"#;

    let new_entry = r#"## Release 1.1.0

**Date:** 2024-02-01

- New feature
"#;

    let result = ConsolidatedChangelog::prepend_to_changelog(
        new_entry,
        existing,
        ChangelogFormat::Markdown,
    );

    // New entry should be after the header but before the old release
    assert!(result.contains("# Changelog"));
    assert!(result.find("## Release 1.1.0").unwrap() < result.find("## Release 1.0.0").unwrap());
}

#[test]
fn test_add_file_header_markdown() {
    let content = "## Release 1.0.0\n\n- Initial release\n";
    let result = ConsolidatedChangelog::add_file_header(content, ChangelogFormat::Markdown);

    assert!(result.starts_with("# Changelog"));
    assert!(result.contains("All notable changes"));
    assert!(result.contains("## Release 1.0.0"));
}

#[test]
fn window_selects_the_sections_above_old_up_to_new() {
    let document = "## 2.2.6 (2025-12-11)\n\nA\n\n## 2.2.5 (2025-10-24)\n\nB\n";
    let entries = select_entries(document, "2.2.5", "2.2.6");
    assert_eq!(entries.len(), 1);
    assert_eq!(entries[0].version, "2.2.6");
    assert_eq!(entries[0].date, Some("2025-12-11".to_string()));
    assert!(entries[0].content.contains("A"));
    assert!(!entries[0].content.contains("B"));
    assert_eq!(entries[0].content, "A");
}

#[test]
fn underlined_headings_are_found_when_there_is_no_markdown() {
    let document = "Changelog\n=========\n\n1.1.0 (2024-02-01)\n------------------\n\n- New feature\n\n1.0.0 (2024-01-01)\n------------------\n\n- Initial release\n";
    assert!(try_parse_markdown_changelog(document, "1.0.0", "1.1.0").is_none());
    let entries = parse_changelog(document, "1.0.0", "1.1.0");
    assert_eq!(entries.len(), 1);
    assert_eq!(entries[0].version, "1.1.0");
    assert_eq!(entries[0].date, Some("2024-02-01".to_string()));
    assert_eq!(entries[0].content, "- New feature");
    let direct = try_parse_rst_changelog(document, "1.0.0", "1.1.0").unwrap();
    assert_eq!(direct.len(), 1);
}

#[test]
fn markdown_headings_with_brackets_and_dashes() {
    let document = "# Changelog\n\n## [v1.2.0] - 2024-03-01\n\n- c\n\n## [1.1.0] \u{2013} 2024-02-01\n\n- b\n\n## 1.0.0\n\n- a\n";
    let entries = try_parse_markdown_changelog(document, "1.0.0", "1.2.0").unwrap();
    assert_eq!(entries.len(), 2);
    assert_eq!(entries[0].version, "1.2.0");
    assert_eq!(entries[0].date, Some("2024-03-01".to_string()));
    assert_eq!(entries[0].content, "- c");
    assert_eq!(entries[1].version, "1.1.0");
    assert_eq!(entries[1].date, Some("2024-02-01".to_string()));
    assert_eq!(entries[1].content, "- b");
}

#[test]
fn sections_at_or_below_the_floor_do_not_leak_in_oldest_first_documents() {
    let document = "## 1.0.0\n\n- a\n\n## 1.1.0\n\n- b\n\n## 1.2.0\n\n- c\n\n## 1.3.0\n\n- d\n";
    let entries = try_parse_markdown_changelog(document, "1.0.0", "1.2.0").unwrap();
    assert_eq!(entries.len(), 2);
    assert_eq!(entries[0].version, "1.1.0");
    assert_eq!(entries[0].content, "- b");
    assert_eq!(entries[1].version, "1.2.0");
    assert_eq!(entries[1].content, "- c");
}

#[test]
fn plain_headings_need_a_dot_in_the_version() {
    let document = "Version 1.1.0 - 2024-02-01\n3 things changed\n* fixed\n\nVersion 1.0.0: first\nnothing\n";
    let entries = try_parse_generic_changelog(document, "1.0.0", "1.1.0").unwrap();
    assert_eq!(entries.len(), 1);
    assert_eq!(entries[0].version, "1.1.0");
    assert_eq!(entries[0].date, Some("2024-02-01".to_string()));
    assert_eq!(entries[0].content, "3 things changed\n* fixed");
    let none = try_parse_generic_changelog("7\nseven\n8\neight\n", "6", "9");
    assert!(none.is_none());
}

#[test]
fn no_section_in_the_window_is_an_empty_result() {
    let document = "## 1.0.0\n\n- a\n";
    assert!(parse_changelog(document, "1.0.0", "2.0.0").is_empty());
    assert!(parse_changelog("", "1.0.0", "2.0.0").is_empty());
    assert!(parse_changelog("just some text\n", "1.0.0", "2.0.0").is_empty());
}

#[test]
fn sections_without_text_are_dropped() {
    let document = "## 1.2.0\n\n\n## 1.1.0\n\n- b\n";
    let entries = parse_changelog(document, "1.0.0", "1.2.0");
    assert_eq!(entries.len(), 1);
    assert_eq!(entries[0].version, "1.1.0");
}

#[test]
fn window_ignores_build_metadata() {
    assert_eq!(normalize_version("1.2.3+5"), vec![1, 2, 3]);
    assert_eq!(normalize_version("4.2.3+build.7"), vec![4, 2, 3]);
    assert_eq!(compare_versions(&normalize_version("1.2.3+9"), &normalize_version("1.2.3")), 0);
}

#[test]
fn a_version_line_without_underline_stays_in_the_body() {
    let document = "2.0.0 (2024-03-01)\n==================\n\n- new\n1.5.0\nwas the last one\n-----\nmore\n\n1.0.0\n-----\n\n- old\n";
    let entries = try_parse_rst_changelog(document, "1.0.0", "2.0.0").unwrap();
    assert_eq!(entries.len(), 1);
    assert_eq!(entries[0].version, "2.0.0");
    assert_eq!(entries[0].date, Some("2024-03-01".to_string()));
    assert_eq!(entries[0].content, "- new\n1.5.0\nwas the last one\nmore");
}

#[test]
fn underlines_are_one_character_repeated() {
    let mixed = "1.1.0\n-=-=-\n\n- a\n";
    assert!(try_parse_rst_changelog(mixed, "1.0.0", "1.1.0").is_none());
    for rule in ["-----", "=====", "~~~~~", "^^^^^", "-"] {
        let document = format!("v1.1.0\n{}\n\n- a\n", rule);
        let entries = try_parse_rst_changelog(&document, "1.0.0", "1.1.0").unwrap();
        assert_eq!(entries[0].version, "1.1.0");
        assert_eq!(entries[0].content, "- a");
    }
}

#[test]
fn markdown_headings_begin_with_two_hashes_and_a_blank() {
    for line in ["##1.1.0", "### 1.1.0", "# 1.1.0", " ## 1.1.0", "##\t1.1.0", "## version 1.1.0", "## 1"] {
        let document = format!("{}\n\n- a\n", line);
        assert!(try_parse_markdown_changelog(&document, "1.0.0", "1.1.0").is_none(), "{:?}", line);
    }
    for line in ["## 1.1.0", "##   1.1.0", "## v1.1.0", "## [1.1.0]", "## [v1.1.0]", "## 1.1.0 \u{2014} today"] {
        let document = format!("{}\n\n- a\n", line);
        let entries = try_parse_markdown_changelog(&document, "1.0.0", "1.1.0").unwrap();
        assert_eq!(entries[0].version, "1.1.0", "{:?}", line);
    }
    let entries = try_parse_markdown_changelog("## 1.1.0 \u{2014} today\nx\n", "1.0", "1.1").unwrap();
    assert_eq!(entries[0].date, Some("today".to_string()));
}

#[test]
fn version_tokens_in_headings() {
    for (token, inside) in [("1.1", true), ("1.1.0", true), ("1.1.0rc1", true), ("1.1.0-beta", true), ("1.1.0.post1", true), ("1.1_x", true), ("1", false), ("1.", false), ("1.1.0.1.2", false)]
    {
        let document = format!("## {}\n\n- a\n", token);
        let found = try_parse_markdown_changelog(&document, "1.0.0", "1.2.0");
        assert_eq!(found.is_some(), inside, "{:?}", token);
        if let Some(entries) = found {
            assert_eq!(entries[0].version, token);
        }
    }
}

#[test]
fn plain_heading_prefixes() {
    for line in ["1.1.0", "v1.1.0", "* 1.1.0", "Version 1.1.0", "Version   1.1.0: notes", "1.1.0 - 2024"] {
        let document = format!("{}\n- a\n", line);
        let entries = try_parse_generic_changelog(&document, "1.0.0", "1.1.0").unwrap();
        assert_eq!(entries[0].version, "1.1.0", "{:?}", line);
    }
    for line in ["*1.1.0", "Version1.1.0", "version 1.1.0", "1.1.0 (2024)", "1.1.0 -"] {
        let document = format!("{}\n- a\n", line);
        assert!(try_parse_generic_changelog(&document, "1.0.0", "1.1.0").is_none(), "{:?}", line);
    }
}

#[test]
fn the_window_is_open_below_and_closed_above() {
    let document = "## 1.3.0\n- d\n## 1.2.0\n- c\n## 1.1.0\n- b\n## 1.0.0\n- a\n";
    let versions = |old: &str, new: &str| {
        parse_changelog(document, old, new).into_iter().map(|e| e.version).collect::<Vec<_>>()
    };
    assert_eq!(versions("1.0.0", "1.2.0"), vec!["1.2.0", "1.1.0"]);
    assert_eq!(versions("1.1.0", "1.1.0"), Vec::<String>::new());
    assert_eq!(versions("0.9", "9"), vec!["1.3.0", "1.2.0", "1.1.0", "1.0.0"]);
    assert_eq!(versions("1.2", "1.3"), vec!["1.3.0"]);
}

#[test]
fn styles_can_be_asked_one_by_one() {
    let document = "## 1.1.0\n- a\n";
    assert_eq!(Style::Markdown.try_segment(document, "1.0", "1.1").unwrap().len(), 1);
    assert!(Style::Underlined.try_segment(document, "1.0", "1.1").is_none());
    assert!(Style::Plain.try_segment(document, "1.0", "1.1").is_none());
}

#[test]
fn windows_line_endings() {
    let document = "## 1.1.0\r\n\r\n- a\r\n- b\r\n";
    let entries = parse_changelog(document, "1.0.0", "1.1.0");
    assert_eq!(entries[0].content, "- a\n- b");
}
