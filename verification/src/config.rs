//! Settings of a release run and their defaults.

use crate::text::{chars_of, is_text, scan_spaces, spaces_end};
use vstd::prelude::*;

verus! {

/// Which component of a version a bump raises.
#[derive(Debug, Clone, Copy, PartialEq, Eq, Structural)]
pub enum VersionBumpType {
    Major,
    Minor,
    Patch,
}

/// The form in which a changelog is written.
#[derive(Debug, Clone, Copy, PartialEq, Eq, Structural)]
pub enum ChangelogFormat {
    Markdown,
    Rst,
    Text,
}

/// The views of a sequence of strings.
pub open spec fn string_views(s: Seq<String>) -> Seq<Seq<char>> {
    s.map_values(|x: String| x@)
}

/// The text of an optional string.
pub open spec fn opt_view(t: Option<String>) -> Option<Seq<char>> {
    match t {
        Some(t) => Some(t@),
        None => None,
    }
}

/// One tracked package.
#[derive(Debug, Clone)]
pub struct PackageConfig {
    /// The name on the package index.
    pub name: String,
    /// A constraint that an update has to meet.
    pub version_constraint: Option<String>,
    /// The name in the versions file, where it differs.
    pub buildout_name: Option<String>,
    /// Whether pre-releases count as updates.
    pub allow_prerelease: bool,
    /// Where the package's changelog is found.
    pub changelog_url: Option<String>,
    /// Whether the package shows in the consolidated changelog.
    pub include_in_changelog: bool,
}

/// What the settings of a package stand for.
pub struct PackageConfigView {
    pub name: Seq<char>,
    pub version_constraint: Option<Seq<char>>,
    pub buildout_name: Option<Seq<char>>,
    pub allow_prerelease: bool,
    pub changelog_url: Option<Seq<char>>,
    pub include_in_changelog: bool,
}

impl View for PackageConfig {
    type V = PackageConfigView;

    open spec fn view(&self) -> PackageConfigView {
        PackageConfigView {
            name: self.name@,
            version_constraint: opt_view(self.version_constraint),
            buildout_name: opt_view(self.buildout_name),
            allow_prerelease: self.allow_prerelease,
            changelog_url: opt_view(self.changelog_url),
            include_in_changelog: self.include_in_changelog,
        }
    }
}

/// What the settings of the packages stand for.
pub open spec fn package_config_views(s: Seq<PackageConfig>) -> Seq<PackageConfigView> {
    s.map_values(|p: PackageConfig| p@)
}

fn copy_opt(t: &Option<String>) -> (r: Option<String>)
    ensures
        opt_view(r) == opt_view(*t),
{
    match t {
        Some(s) => Some(s.clone()),
        None => None,
    }
}

impl PackageConfig {
    /// A copy of these settings.
    pub fn duplicate(&self) -> (r: PackageConfig)
        ensures
            r@ == self@,
    {
        PackageConfig {
            name: self.name.clone(),
            version_constraint: copy_opt(&self.version_constraint),
            buildout_name: copy_opt(&self.buildout_name),
            allow_prerelease: self.allow_prerelease,
            changelog_url: copy_opt(&self.changelog_url),
            include_in_changelog: self.include_in_changelog,
        }
    }

    /// The name by which the versions file knows the package: the name
    /// given for that purpose, else the package's own.
    pub fn buildout_name(&self) -> (r: &str)
        ensures
            r@ == (match self.buildout_name {
                Some(b) => b@,
                None => self.name@,
            }),
    {
        match &self.buildout_name {
            Some(b) => b.as_str(),
            None => self.name.as_str(),
        }
    }
}

/// How commits are made.
#[derive(Debug, Clone)]
pub struct GitConfig {
    pub branch: Option<String>,
    pub auto_push: bool,
    pub commit_template: String,
}

/// The commit template that stands in for a missing one.
pub fn default_commit_template() -> (r: String)
    ensures
        r@ == "Use {packages}"@,
{
    "Use {packages}".to_owned()
}

impl Default for GitConfig {
    fn default() -> (r: GitConfig)
        ensures
            r.branch is None,
            !r.auto_push,
            r.commit_template@ == "Use {packages}"@,
    {
        GitConfig { branch: None, auto_push: false, commit_template: default_commit_template() }
    }
}

/// Whether a text is empty or white space only.
pub open spec fn is_blank(s: Seq<char>) -> bool {
    spaces_end(s, 0) >= s.len()
}

impl GitConfig {
    /// The commit template in force: the configured one unless it is blank.
    pub fn effective_commit_template(&self) -> (r: &str)
        ensures
            r@ == (if is_blank(self.commit_template@) {
                "Use {packages}"@
            } else {
                self.commit_template@
            }),
    {
        let c = chars_of(self.commit_template.as_str());
        if scan_spaces(&c, 0) >= c.len() {
            "Use {packages}"
        } else {
            self.commit_template.as_str()
        }
    }
}

/// How releases are published.
#[derive(Debug, Clone)]
pub struct GitHubConfig {
    pub repository: Option<String>,
    pub create_release: bool,
    pub tag_prefix: String,
}

impl Default for GitHubConfig {
    fn default() -> (r: GitHubConfig)
        ensures
            r.repository is None,
            r.create_release,
            r.tag_prefix@ == Seq::<char>::empty(),
    {
        GitHubConfig { repository: None, create_release: true, tag_prefix: String::new() }
    }
}

/// How changelogs are collected and written.
#[derive(Debug, Clone)]
pub struct ChangelogConfig {
    pub enabled: bool,
    pub format: String,
    pub output_file: Option<String>,
    pub include_in_commit: bool,
    pub use_as_release_notes: bool,
    pub header_template: String,
    pub package_template: String,
    pub changelog_files: Vec<String>,
    pub github_branches: Vec<String>,
}

/// The changelog form that stands in for a missing one.
pub fn default_changelog_format() -> (r: String)
    ensures
        r@ == "markdown"@,
{
    "markdown".to_owned()
}

/// The value of the switches that are on unless turned off.
pub fn default_true() -> (r: bool)
    ensures
        r,
{
    true
}

/// The head of a release in a changelog.
pub fn default_changelog_header() -> (r: String)
    ensures
        r@ == "# Release {version}\n\n**Date:** {date}\n\n## Package Updates"@,
{
    "# Release {version}\n\n**Date:** {date}\n\n## Package Updates".to_owned()
}

/// The heading of a package in a changelog.
pub fn default_package_template() -> (r: String)
    ensures
        r@ == "### {package} ({old_version} \u{2192} {new_version})"@,
{
    "### {package} ({old_version} \u{2192} {new_version})".to_owned()
}

/// The file names under which changelogs are looked for, in this order.
pub open spec fn changelog_file_names() -> Seq<Seq<char>> {
    seq![
        "CHANGELOG.md"@,
        "CHANGES.md"@,
        "HISTORY.md"@,
        "CHANGELOG.rst"@,
        "CHANGES.rst"@,
        "HISTORY.rst"@,
        "CHANGELOG.txt"@,
        "CHANGES.txt"@,
        "HISTORY.txt"@,
        "docs/CHANGELOG.md"@,
        "docs/CHANGES.md"@,
        "docs/changelog.md"@,
        "docs/changes.md"@,
        "docs/history.md"@,
    ]
}

/// The file names under which changelogs are looked for.
pub fn default_changelog_files() -> (r: Vec<String>)
    ensures
        string_views(r@) == changelog_file_names(),
{
    let mut r: Vec<String> = Vec::new();
    r.push("CHANGELOG.md".to_owned());
    r.push("CHANGES.md".to_owned());
    r.push("HISTORY.md".to_owned());
    r.push("CHANGELOG.rst".to_owned());
    r.push("CHANGES.rst".to_owned());
    r.push("HISTORY.rst".to_owned());
    r.push("CHANGELOG.txt".to_owned());
    r.push("CHANGES.txt".to_owned());
    r.push("HISTORY.txt".to_owned());
    r.push("docs/CHANGELOG.md".to_owned());
    r.push("docs/CHANGES.md".to_owned());
    r.push("docs/changelog.md".to_owned());
    r.push("docs/changes.md".to_owned());
    r.push("docs/history.md".to_owned());
    r
}

impl Default for ChangelogConfig {
    fn default() -> (r: ChangelogConfig)
        ensures
            !r.enabled,
            r.format@ == "markdown"@,
            opt_view(r.output_file) == Some("CHANGELOG.md"@),
            r.include_in_commit,
            r.use_as_release_notes,
            r.header_template@ == "# Release {version}\n\n**Date:** {date}\n\n## Package Updates"@,
            r.package_template@ == "### {package} ({old_version} \u{2192} {new_version})"@,
            string_views(r.changelog_files@) == changelog_file_names(),
            r.github_branches@.len() == 0,
    {
        ChangelogConfig {
            enabled: false,
            format: default_changelog_format(),
            output_file: Some("CHANGELOG.md".to_owned()),
            include_in_commit: true,
            use_as_release_notes: true,
            header_template: default_changelog_header(),
            package_template: default_package_template(),
            changelog_files: default_changelog_files(),
            github_branches: Vec::new(),
        }
    }
}

/// The lower-case form of a text.
pub uninterp spec fn lowercase(s: Seq<char>) -> Seq<char>;

/// `str::to_lowercase` of the standard library. The contract only gives the
/// outcome its name: the same text always has the same lower-case form.
#[verifier::external_body]
pub(crate) fn to_lowercase(s: &str) -> (r: String)
    ensures
        r@ == lowercase(s@),
{
    s.to_lowercase()
}

/// The format that a name in lower case stands for: `rst` and
/// `restructuredtext` for reStructuredText, `text`, `txt` and `plain` for
/// plain text, every other name for Markdown.
pub open spec fn format_named(name: Seq<char>) -> ChangelogFormat {
    if name == "rst"@ || name == "restructuredtext"@ {
        ChangelogFormat::Rst
    } else if name == "text"@ || name == "txt"@ || name == "plain"@ {
        ChangelogFormat::Text
    } else {
        ChangelogFormat::Markdown
    }
}

/// The format that a name in lower case stands for.
pub fn format_from_name(name: &str) -> (r: ChangelogFormat)
    ensures
        r == format_named(name@),
{
    let c = chars_of(name);
    if is_text(&c, "rst") || is_text(&c, "restructuredtext") {
        ChangelogFormat::Rst
    } else if is_text(&c, "text") || is_text(&c, "txt") || is_text(&c, "plain") {
        ChangelogFormat::Text
    } else {
        ChangelogFormat::Markdown
    }
}

impl ChangelogConfig {
    /// The configured format, read without regard to case.
    pub fn format_enum(&self) -> (r: ChangelogFormat)
        ensures
            r == format_named(lowercase(self.format@)),
    {
        let lower = to_lowercase(self.format.as_str());
        format_from_name(lower.as_str())
    }
}

/// The names of the bump levels.
#[derive(Debug, Clone)]
pub struct VersionConfig {
    /// Each level's name with what it raises. Of two levels with one name
    /// the first counts.
    pub levels: Vec<(String, VersionBumpType)>,
}

/// What the levels stand for.
pub open spec fn level_views(s: Seq<(String, VersionBumpType)>) -> Seq<
    (Seq<char>, VersionBumpType),
> {
    s.map_values(|p: (String, VersionBumpType)| (p.0@, p.1))
}

/// The levels that are known without configuration.
pub open spec fn standard_levels() -> Seq<(Seq<char>, VersionBumpType)> {
    seq![
        ("major"@, VersionBumpType::Major),
        ("minor"@, VersionBumpType::Minor),
        ("patch"@, VersionBumpType::Patch),
        ("fix"@, VersionBumpType::Patch),
        ("hotfix"@, VersionBumpType::Patch),
        ("feature"@, VersionBumpType::Minor),
        ("breaking"@, VersionBumpType::Major),
    ]
}

/// The pattern by which the version is found in a file.
pub fn default_version_pattern() -> (r: String)
    ensures
        r@ == "(?m)^version\\s*=\\s*[\"']?(\\d+\\.\\d+\\.\\d+)[\"']?"@,
{
    "(?m)^version\\s*=\\s*[\"']?(\\d+\\.\\d+\\.\\d+)[\"']?".to_owned()
}

/// The levels that are known without configuration.
pub fn default_version_levels() -> (r: Vec<(String, VersionBumpType)>)
    ensures
        level_views(r@) == standard_levels(),
{
    let mut r: Vec<(String, VersionBumpType)> = Vec::new();
    r.push(("major".to_owned(), VersionBumpType::Major));
    r.push(("minor".to_owned(), VersionBumpType::Minor));
    r.push(("patch".to_owned(), VersionBumpType::Patch));
    r.push(("fix".to_owned(), VersionBumpType::Patch));
    r.push(("hotfix".to_owned(), VersionBumpType::Patch));
    r.push(("feature".to_owned(), VersionBumpType::Minor));
    r.push(("breaking".to_owned(), VersionBumpType::Major));
    r
}

impl Default for VersionConfig {
    fn default() -> (r: VersionConfig)
        ensures
            level_views(r.levels@) == standard_levels(),
    {
        VersionConfig { levels: default_version_levels() }
    }
}

/// A metadata file that carries the version and the date of a release.
#[derive(Debug, Clone)]
pub struct MetadataFileConfig {
    pub path: String,
    pub format: String,
    pub version_fields: Vec<String>,
    pub date_fields: Vec<String>,
    pub include_in_commit: bool,
}

/// The format of a metadata file that names none.
pub fn default_metadata_format() -> (r: String)
    ensures
        r@ == "yaml"@,
{
    "yaml".to_owned()
}

/// The fields of a metadata file that hold the version.
pub fn default_version_fields() -> (r: Vec<String>)
    ensures
        string_views(r@) == seq!["softwareVersion"@, "version"@],
{
    let mut r: Vec<String> = Vec::new();
    r.push("softwareVersion".to_owned());
    r.push("version".to_owned());
    r
}

/// The fields of a metadata file that hold the date of the release.
pub fn default_date_fields() -> (r: Vec<String>)
    ensures
        string_views(r@) == seq!["releaseDate"@],
{
    let mut r: Vec<String> = Vec::new();
    r.push("releaseDate".to_owned());
    r
}

/// All settings of a release run.
#[derive(Debug, Clone)]
pub struct Config {
    /// The path of the versions file.
    pub versions_file: String,
    /// The tracked packages.
    pub packages: Vec<PackageConfig>,
    pub git: GitConfig,
    pub github: GitHubConfig,
    pub changelog: ChangelogConfig,
    pub version: VersionConfig,
    /// The metadata files to bring up to date with a release.
    pub metadata_files: Vec<MetadataFileConfig>,
}

impl Config {
    /// The settings that a new project starts from: one example package,
    /// one metadata file, and the defaults of every section.
    pub fn create_default() -> (r: Config)
        ensures
            r.versions_file@ == "versions.cfg"@,
            r.packages@.len() == 1,
            r.packages@[0].name@ == "example-package"@,
            r.packages@[0].version_constraint is None,
            r.packages@[0].buildout_name is None,
            !r.packages@[0].allow_prerelease,
            r.packages@[0].changelog_url is None,
            r.packages@[0].include_in_changelog,
            r.git.branch is None && !r.git.auto_push && r.git.commit_template@
                == "Use {packages}"@,
            r.github.repository is None && r.github.create_release && r.github.tag_prefix@.len()
                == 0,
            !r.changelog.enabled && r.changelog.format@ == "markdown"@,
            opt_view(r.changelog.output_file) == Some("CHANGELOG.md"@),
            r.changelog.include_in_commit && r.changelog.use_as_release_notes,
            r.changelog.header_template@
                == "# Release {version}\n\n**Date:** {date}\n\n## Package Updates"@,
            r.changelog.package_template@
                == "### {package} ({old_version} \u{2192} {new_version})"@,
            string_views(r.changelog.changelog_files@) == changelog_file_names(),
            r.changelog.github_branches@.len() == 0,
            level_views(r.version.levels@) == standard_levels(),
            r.metadata_files@.len() == 1,
            r.metadata_files@[0].path@ == "publiccode.yml"@,
            r.metadata_files@[0].format@ == "yaml"@,
            string_views(r.metadata_files@[0].version_fields@) == seq!["softwareVersion"@],
            string_views(r.metadata_files@[0].date_fields@) == seq!["releaseDate"@],
            r.metadata_files@[0].include_in_commit,
    {
        let mut packages: Vec<PackageConfig> = Vec::new();
        packages.push(
            PackageConfig {
                name: "example-package".to_owned(),
                version_constraint: None,
                buildout_name: None,
                allow_prerelease: false,
                changelog_url: None,
                include_in_changelog: true,
            },
        );
        let mut version_fields: Vec<String> = Vec::new();
        version_fields.push("softwareVersion".to_owned());
        let mut metadata_files: Vec<MetadataFileConfig> = Vec::new();
        metadata_files.push(
            MetadataFileConfig {
                path: "publiccode.yml".to_owned(),
                format: "yaml".to_owned(),
                version_fields,
                date_fields: default_date_fields(),
                include_in_commit: true,
            },
        );
        Config {
            versions_file: "versions.cfg".to_owned(),
            packages,
            git: GitConfig::default(),
            github: GitHubConfig::default(),
            changelog: ChangelogConfig::default(),
            version: VersionConfig::default(),
            metadata_files,
        }
    }
}

} // verus!
