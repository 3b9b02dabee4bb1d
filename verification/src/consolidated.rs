//! The changelog of a release: the sections gathered for every updated
//! package, written in Markdown, reStructuredText or plain text, and put at
//! the head of a changelog file.

use crate::changelog::{entry_views, ChangelogEntry, EntryView};
use crate::config::{opt_view, ChangelogConfig, ChangelogFormat};
use crate::text::{
    append_chars, append_str, byte_len, chars_of, flat, has_at, lemma_flat_push, lines, lines_of,
    matches_at, push_repeat, push_rule, repeat, replace_all, replaced, string_of, trim, trimmed,
    views,
};
use vstd::prelude::*;

verus! {

/// The sections gathered for one updated package.
#[derive(Debug, Clone)]
pub struct PackageChangelog {
    pub package_name: String,
    pub old_version: String,
    pub new_version: String,
    pub entries: Vec<ChangelogEntry>,
    pub raw_content: Option<String>,
}

/// What the sections of a package stand for.
pub struct PackageView {
    pub package_name: Seq<char>,
    pub old_version: Seq<char>,
    pub new_version: Seq<char>,
    pub entries: Seq<EntryView>,
    pub raw_content: Option<Seq<char>>,
}

impl View for PackageChangelog {
    type V = PackageView;

    open spec fn view(&self) -> PackageView {
        PackageView {
            package_name: self.package_name@,
            old_version: self.old_version@,
            new_version: self.new_version@,
            entries: entry_views(self.entries@),
            raw_content: opt_view(self.raw_content),
        }
    }
}

/// What the sections of the packages stand for.
pub open spec fn package_views(s: Seq<PackageChangelog>) -> Seq<PackageView> {
    s.map_values(|p: PackageChangelog| p@)
}

/// The changelog of one release.
#[derive(Debug, Clone)]
pub struct ConsolidatedChangelog {
    pub release_version: String,
    pub date: String,
    pub package_changelogs: Vec<PackageChangelog>,
    pub header_template: String,
    pub package_template: String,
}

/// What the changelog of a release stands for.
pub struct ConsolidatedView {
    pub release_version: Seq<char>,
    pub date: Seq<char>,
    pub packages: Seq<PackageView>,
    pub header_template: Seq<char>,
    pub package_template: Seq<char>,
}

impl View for ConsolidatedChangelog {
    type V = ConsolidatedView;

    open spec fn view(&self) -> ConsolidatedView {
        ConsolidatedView {
            release_version: self.release_version@,
            date: self.date@,
            packages: package_views(self.package_changelogs@),
            header_template: self.header_template@,
            package_template: self.package_template@,
        }
    }
}

/// The note that follows a version in a heading: the date in round
/// brackets behind a blank, or nothing.
pub open spec fn date_note(date: Option<Seq<char>>) -> Seq<char> {
    match date {
        Some(d) => " ("@ + d + ")"@,
        None => Seq::empty(),
    }
}

/// The head of the Markdown form: the header template with the version for
/// `{version}` and the date for `{date}`.
pub open spec fn header_text(c: ConsolidatedView) -> Seq<char> {
    replaced(replaced(c.header_template, "{version}"@, c.release_version), "{date}"@, c.date)
}

/// The heading of a package in the Markdown form: the package template with
/// the name for `{package}` and the two versions for `{old_version}` and
/// `{new_version}`.
pub open spec fn package_heading(template: Seq<char>, p: PackageView) -> Seq<char> {
    replaced(
        replaced(
            replaced(template, "{package}"@, p.package_name),
            "{old_version}"@,
            p.old_version,
        ),
        "{new_version}"@,
        p.new_version,
    )
}

/// One section in Markdown: a heading of the fourth level and the text.
pub open spec fn entry_markdown(e: EntryView) -> Seq<char> {
    "#### Version "@ + e.version + date_note(e.date) + "\n\n"@ + e.content + "\n\n"@
}

/// A title with a rule below it: the title, a line feed, and `rule` once
/// for each byte that the title takes in UTF-8.
pub open spec fn ruled(title: Seq<char>, rule: char) -> Seq<char> {
    title + "\n"@ + repeat(rule, byte_len(title))
}

/// One section in reStructuredText: a title ruled with `^` and the text.
pub open spec fn entry_rst(e: EntryView) -> Seq<char> {
    ruled("Version "@ + e.version + date_note(e.date), '^') + "\n\n"@ + e.content + "\n\n"@
}

/// A line of a section in the plain form: four blanks, the line, a line feed.
pub open spec fn indented(line: Seq<char>) -> Seq<char> {
    "    "@ + line + "\n"@
}

/// One section in plain text: the version, and each line of the text
/// indented.
pub open spec fn entry_plain(e: EntryView) -> Seq<char> {
    "\n  Version "@ + e.version + date_note(e.date) + ":\n"@ + flat(
        lines_of(e.content).map_values(|l: Seq<char>| indented(l)),
    )
}

/// One section in the given form.
pub open spec fn entry_text(format: ChangelogFormat, e: EntryView) -> Seq<char> {
    match format {
        ChangelogFormat::Markdown => entry_markdown(e),
        ChangelogFormat::Rst => entry_rst(e),
        ChangelogFormat::Text => entry_plain(e),
    }
}

/// The sections of a package in the given form, one after the other.
pub open spec fn entries_text(format: ChangelogFormat, entries: Seq<EntryView>) -> Seq<char> {
    flat(entries.map_values(|e: EntryView| entry_text(format, e)))
}

/// One package in Markdown: its heading and its sections, or a note that
/// there are none.
pub open spec fn package_markdown(template: Seq<char>, p: PackageView) -> Seq<char> {
    package_heading(template, p) + "\n\n"@ + (if p.entries.len() == 0 {
        "*No changelog entries found.*\n\n"@
    } else {
        entries_text(ChangelogFormat::Markdown, p.entries)
    })
}

/// The title of a package: its name and its two versions.
pub open spec fn package_title(p: PackageView) -> Seq<char> {
    p.package_name + " ("@ + p.old_version + " \u{2192} "@ + p.new_version + ")"@
}

/// One package in reStructuredText: its title ruled with `~` and its
/// sections, or a note that there are none.
pub open spec fn package_rst(p: PackageView) -> Seq<char> {
    ruled(package_title(p), '~') + "\n\n"@ + (if p.entries.len() == 0 {
        "*No changelog entries found.*\n\n"@
    } else {
        entries_text(ChangelogFormat::Rst, p.entries)
    })
}

/// One package in plain text: its name and versions above a rule of forty
/// `-`, and its sections, or a note that there are none.
pub open spec fn package_plain(p: PackageView) -> Seq<char> {
    p.package_name + ": "@ + p.old_version + " \u{2192} "@ + p.new_version + "\n"@ + repeat(
        '-',
        40,
    ) + "\n"@ + (if p.entries.len() == 0 {
        "  No changelog entries found.\n"@
    } else {
        entries_text(ChangelogFormat::Text, p.entries)
    }) + "\n"@
}

/// One package in the given form.
pub open spec fn package_text(format: ChangelogFormat, template: Seq<char>, p: PackageView) -> Seq<
    char,
> {
    match format {
        ChangelogFormat::Markdown => package_markdown(template, p),
        ChangelogFormat::Rst => package_rst(p),
        ChangelogFormat::Text => package_plain(p),
    }
}

/// The packages in the given form, one after the other.
pub open spec fn packages_text(
    format: ChangelogFormat,
    template: Seq<char>,
    packages: Seq<PackageView>,
) -> Seq<char> {
    flat(packages.map_values(|p: PackageView| package_text(format, template, p)))
}

/// The Markdown form: the head, an empty line, and every package with its
/// heading and its sections.
pub open spec fn markdown_text(c: ConsolidatedView) -> Seq<char> {
    header_text(c) + "\n\n"@ + packages_text(
        ChangelogFormat::Markdown,
        c.package_template,
        c.packages,
    )
}

/// The reStructuredText form: the release as title, the date, and every
/// package with its title and its sections.
pub open spec fn rst_text(c: ConsolidatedView) -> Seq<char> {
    ruled("Release "@ + c.release_version, '=') + "\n\n"@ + "**Date:** "@ + c.date + "\n\n"@
        + "Package Updates\n"@ + "---------------\n\n"@ + packages_text(
        ChangelogFormat::Rst,
        c.package_template,
        c.packages,
    )
}

/// The plain form: the release and the date above a rule, and every package
/// with its versions and its sections.
pub open spec fn plain_text(c: ConsolidatedView) -> Seq<char> {
    "RELEASE "@ + c.release_version + " ("@ + c.date + ")\n"@ + repeat('=', 60) + "\n\n"@
        + packages_text(ChangelogFormat::Text, c.package_template, c.packages)
}

/// The changelog in the given form.
pub open spec fn rendered(c: ConsolidatedView, format: ChangelogFormat) -> Seq<char> {
    match format {
        ChangelogFormat::Markdown => markdown_text(c),
        ChangelogFormat::Rst => rst_text(c),
        ChangelogFormat::Text => plain_text(c),
    }
}

fn push_date_note(out: &mut Vec<char>, date: &Option<String>)
    ensures
        final(out)@ == old(out)@ + date_note(opt_view(*date)),
{
    if let Some(d) = date {
        append_str(out, " (");
        append_str(out, d.as_str());
        append_str(out, ")");
    }
}

fn push_entry_markdown(out: &mut Vec<char>, e: &ChangelogEntry)
    ensures
        final(out)@ == old(out)@ + entry_markdown(e@),
{
    append_str(out, "#### Version ");
    append_str(out, e.version.as_str());
    push_date_note(out, &e.date);
    append_str(out, "\n\n");
    append_str(out, e.content.as_str());
    append_str(out, "\n\n");
}

fn push_ruled(out: &mut Vec<char>, title: &Vec<char>, rule: char)
    ensures
        final(out)@ == old(out)@ + ruled(title@, rule),
{
    append_chars(out, title);
    append_str(out, "\n");
    push_rule(out, rule, title);
}

fn push_entry_rst(out: &mut Vec<char>, e: &ChangelogEntry)
    ensures
        final(out)@ == old(out)@ + entry_rst(e@),
{
    let mut title = chars_of("Version ");
    append_str(&mut title, e.version.as_str());
    push_date_note(&mut title, &e.date);
    push_ruled(out, &title, '^');
    append_str(out, "\n\n");
    append_str(out, e.content.as_str());
    append_str(out, "\n\n");
}

fn push_entry_plain(out: &mut Vec<char>, e: &ChangelogEntry)
    ensures
        final(out)@ == old(out)@ + entry_plain(e@),
{
    append_str(out, "\n  Version ");
    append_str(out, e.version.as_str());
    push_date_note(out, &e.date);
    append_str(out, ":\n");
    let ghost head = out@;
    let content = chars_of(e.content.as_str());
    let all = lines(&content);
    let ghost parts = lines_of(e.content@).map_values(|l: Seq<char>| indented(l));
    let mut i: usize = 0;
    while i < all.len()
        invariant
            i <= all.len(),
            views(all@) == lines_of(e.content@),
            parts == lines_of(e.content@).map_values(|l: Seq<char>| indented(l)),
            out@ == head + flat(parts.take(i as int)),
        decreases all.len() - i,
    {
        append_str(out, "    ");
        append_chars(out, &all[i]);
        append_str(out, "\n");
        proof {
            lemma_flat_push(parts.take(i as int), indented(all@[i as int]@));
            assert(parts.take(i + 1) =~= parts.take(i as int).push(indented(all@[i as int]@)));
        }
        i += 1;
    }
    assert(parts.take(all.len() as int) =~= parts);
}

fn push_entries(out: &mut Vec<char>, entries: &Vec<ChangelogEntry>, format: ChangelogFormat)
    ensures
        final(out)@ == old(out)@ + entries_text(format, entry_views(entries@)),
{
    let ghost parts = entry_views(entries@).map_values(|e: EntryView| entry_text(format, e));
    let mut i: usize = 0;
    while i < entries.len()
        invariant
            i <= entries.len(),
            parts == entry_views(entries@).map_values(|e: EntryView| entry_text(format, e)),
            out@ == old(out)@ + flat(parts.take(i as int)),
        decreases entries.len() - i,
    {
        match format {
            ChangelogFormat::Markdown => push_entry_markdown(out, &entries[i]),
            ChangelogFormat::Rst => push_entry_rst(out, &entries[i]),
            ChangelogFormat::Text => push_entry_plain(out, &entries[i]),
        }
        proof {
            lemma_flat_push(parts.take(i as int), parts[i as int]);
            assert(parts.take(i + 1) =~= parts.take(i as int).push(parts[i as int]));
        }
        i += 1;
    }
    assert(parts.take(entries.len() as int) =~= parts);
}

fn package_title_chars(p: &PackageChangelog) -> (r: Vec<char>)
    ensures
        r@ == package_title(p@),
{
    let mut t = chars_of(p.package_name.as_str());
    append_str(&mut t, " (");
    append_str(&mut t, p.old_version.as_str());
    append_str(&mut t, " \u{2192} ");
    append_str(&mut t, p.new_version.as_str());
    append_str(&mut t, ")");
    t
}

fn push_package(
    out: &mut Vec<char>,
    template: &Vec<char>,
    p: &PackageChangelog,
    format: ChangelogFormat,
)
    ensures
        final(out)@ == old(out)@ + package_text(format, template@, p@),
{
    match format {
        ChangelogFormat::Markdown => {
            let name = chars_of(p.package_name.as_str());
            let old_version = chars_of(p.old_version.as_str());
            let new_version = chars_of(p.new_version.as_str());
            let a = replace_all(template, "{package}", &name);
            let b = replace_all(&a, "{old_version}", &old_version);
            let c = replace_all(&b, "{new_version}", &new_version);
            append_chars(out, &c);
            append_str(out, "\n\n");
            if p.entries.len() == 0 {
                append_str(out, "*No changelog entries found.*\n\n");
            } else {
                push_entries(out, &p.entries, format);
            }
        },
        ChangelogFormat::Rst => {
            let title = package_title_chars(p);
            push_ruled(out, &title, '~');
            append_str(out, "\n\n");
            if p.entries.len() == 0 {
                append_str(out, "*No changelog entries found.*\n\n");
            } else {
                push_entries(out, &p.entries, format);
            }
        },
        ChangelogFormat::Text => {
            append_str(out, p.package_name.as_str());
            append_str(out, ": ");
            append_str(out, p.old_version.as_str());
            append_str(out, " \u{2192} ");
            append_str(out, p.new_version.as_str());
            append_str(out, "\n");
            push_repeat(out, '-', 40);
            append_str(out, "\n");
            if p.entries.len() == 0 {
                append_str(out, "  No changelog entries found.\n");
            } else {
                push_entries(out, &p.entries, format);
            }
            append_str(out, "\n");
        },
    }
}

fn push_packages(
    out: &mut Vec<char>,
    template: &Vec<char>,
    packages: &Vec<PackageChangelog>,
    format: ChangelogFormat,
)
    ensures
        final(out)@ == old(out)@ + packages_text(format, template@, package_views(packages@)),
{
    let ghost parts = package_views(packages@).map_values(
        |p: PackageView| package_text(format, template@, p),
    );
    let mut i: usize = 0;
    while i < packages.len()
        invariant
            i <= packages.len(),
            parts == package_views(packages@).map_values(
                |p: PackageView| package_text(format, template@, p),
            ),
            out@ == old(out)@ + flat(parts.take(i as int)),
        decreases packages.len() - i,
    {
        push_package(out, template, &packages[i], format);
        proof {
            lemma_flat_push(parts.take(i as int), parts[i as int]);
            assert(parts.take(i + 1) =~= parts.take(i as int).push(parts[i as int]));
        }
        i += 1;
    }
    assert(parts.take(packages.len() as int) =~= parts);
}

impl ConsolidatedChangelog {
    /// The changelog of a release, with the standard templates.
    pub fn new(release_version: &str, date: &str, package_changelogs: Vec<PackageChangelog>) -> (r:
        ConsolidatedChangelog)
        ensures
            r@ == (ConsolidatedView {
                release_version: release_version@,
                date: date@,
                packages: package_views(package_changelogs@),
                header_template: "# Release {version}\n\n**Date:** {date}\n\n## Package Updates"@,
                package_template: "### {package} ({old_version} \u{2192} {new_version})"@,
            }),
    {
        let config = ChangelogConfig::default();
        ConsolidatedChangelog::with_templates(release_version, date, package_changelogs, &config)
    }

    /// The changelog of a release, with the templates of `config`.
    pub fn with_templates(
        release_version: &str,
        date: &str,
        package_changelogs: Vec<PackageChangelog>,
        config: &ChangelogConfig,
    ) -> (r: ConsolidatedChangelog)
        ensures
            r@ == (ConsolidatedView {
                release_version: release_version@,
                date: date@,
                packages: package_views(package_changelogs@),
                header_template: config.header_template@,
                package_template: config.package_template@,
            }),
    {
        ConsolidatedChangelog {
            release_version: release_version.to_owned(),
            date: date.to_owned(),
            package_changelogs,
            header_template: config.header_template.clone(),
            package_template: config.package_template.clone(),
        }
    }

    /// The changelog in Markdown.
    pub fn to_markdown(&self) -> (r: String)
        ensures
            r@ == markdown_text(self@),
    {
        let template = chars_of(self.header_template.as_str());
        let version = chars_of(self.release_version.as_str());
        let date = chars_of(self.date.as_str());
        let a = replace_all(&template, "{version}", &version);
        let mut out = replace_all(&a, "{date}", &date);
        append_str(&mut out, "\n\n");
        let package_template = chars_of(self.package_template.as_str());
        let ghost head = out@;
        push_packages(
            &mut out,
            &package_template,
            &self.package_changelogs,
            ChangelogFormat::Markdown,
        );
        string_of(&out)
    }

    /// The changelog in reStructuredText.
    pub fn to_rst(&self) -> (r: String)
        ensures
            r@ == rst_text(self@),
    {
        let mut title = chars_of("Release ");
        append_str(&mut title, self.release_version.as_str());
        let mut out: Vec<char> = Vec::new();
        push_ruled(&mut out, &title, '=');
        append_str(&mut out, "\n\n");
        append_str(&mut out, "**Date:** ");
        append_str(&mut out, self.date.as_str());
        append_str(&mut out, "\n\n");
        append_str(&mut out, "Package Updates\n");
        append_str(&mut out, "---------------\n\n");
        let package_template = chars_of(self.package_template.as_str());
        let ghost head = out@;
        push_packages(&mut out, &package_template, &self.package_changelogs, ChangelogFormat::Rst);
        string_of(&out)
    }

    /// The changelog in plain text.
    pub fn to_text(&self) -> (r: String)
        ensures
            r@ == plain_text(self@),
    {
        let mut out = chars_of("RELEASE ");
        append_str(&mut out, self.release_version.as_str());
        append_str(&mut out, " (");
        append_str(&mut out, self.date.as_str());
        append_str(&mut out, ")\n");
        push_repeat(&mut out, '=', 60);
        append_str(&mut out, "\n\n");
        let package_template = chars_of(self.package_template.as_str());
        let ghost head = out@;
        push_packages(&mut out, &package_template, &self.package_changelogs, ChangelogFormat::Text);
        string_of(&out)
    }

    /// The changelog in the given form.
    pub fn render(&self, format: ChangelogFormat) -> (r: String)
        ensures
            r@ == rendered(self@, format),
    {
        match format {
            ChangelogFormat::Markdown => self.to_markdown(),
            ChangelogFormat::Rst => self.to_rst(),
            ChangelogFormat::Text => self.to_text(),
        }
    }
}

/// The lines of `lines`, each with a line feed behind it.
pub open spec fn unlined(lines: Seq<Seq<char>>) -> Seq<char> {
    flat(lines.map_values(|l: Seq<char>| l.push('\n')))
}

/// Whether a trimmed line is a main title in Markdown: it begins with `# `.
pub open spec fn is_main_title(t: Seq<char>) -> bool {
    has_at(t, 0, "# "@)
}

/// The line of a Markdown changelog before which a new release goes, looked
/// for from line `i` on; `found` says whether a main title was met before.
/// Blank lines and main titles are passed over. Of the other lines, the
/// first one below a main title is the place, and so is the first heading
/// of the second level; where there is no such line, the place is the end.
pub open spec fn markdown_place(lines: Seq<Seq<char>>, i: int, found: bool) -> int
    decreases lines.len() - i,
{
    if i < 0 || i >= lines.len() {
        lines.len() as int
    } else if trimmed(lines[i]).len() == 0 {
        markdown_place(lines, i + 1, found)
    } else if is_main_title(trimmed(lines[i])) {
        markdown_place(lines, i + 1, true)
    } else if found || has_at(trimmed(lines[i]), 0, "## "@) {
        i
    } else {
        markdown_place(lines, i + 1, found)
    }
}

/// Whether a trimmed line is the rule below a main title in
/// reStructuredText: `=`, repeated, and nothing else.
pub open spec fn is_title_rule(t: Seq<char>) -> bool {
    t.len() > 0 && forall|k: int| 0 <= k < t.len() ==> #[trigger] t[k] == '='
}

/// The line of a reStructuredText changelog before which a new release
/// goes, looked for from line `i` on. Up to the main title, which is the
/// first line that is not blank and has a title rule right below it, every
/// line is passed over; the title and its rule are passed over together;
/// behind them, the first line that is not blank is the place. Where there
/// is no main title, the place is the end.
pub open spec fn rst_place(lines: Seq<Seq<char>>, i: int, found: bool) -> int
    decreases lines.len() - i,
{
    if i < 0 || i >= lines.len() {
        lines.len() as int
    } else if trimmed(lines[i]).len() == 0 {
        rst_place(lines, i + 1, found)
    } else if found {
        i
    } else if i + 1 < lines.len() && is_title_rule(trimmed(lines[i + 1])) {
        rst_place(lines, i + 2, true)
    } else {
        rst_place(lines, i + 1, false)
    }
}

/// An existing changelog with a new release put at its head. In Markdown
/// and reStructuredText the release goes below the main title: the lines
/// above the place, the trimmed release, an empty line, the lines from the
/// place on; every line ends in a line feed. In plain text the trimmed
/// release stands first, then a rule of sixty `=`, then the existing text.
pub open spec fn prepended(new_content: Seq<char>, existing: Seq<char>, format: ChangelogFormat)
    -> Seq<char> {
    let lines = lines_of(existing);
    match format {
        ChangelogFormat::Markdown => unlined(lines.take(markdown_place(lines, 0, false)))
            + trimmed(new_content) + "\n\n"@ + unlined(
            lines.skip(markdown_place(lines, 0, false)),
        ),
        ChangelogFormat::Rst => unlined(lines.take(rst_place(lines, 0, false))) + trimmed(
            new_content,
        ) + "\n\n"@ + unlined(lines.skip(rst_place(lines, 0, false))),
        ChangelogFormat::Text => trimmed(new_content) + "\n"@ + repeat('=', 60) + "\n"@
            + existing,
    }
}

/// A release under the head of a new changelog file.
pub open spec fn with_file_header(content: Seq<char>, format: ChangelogFormat) -> Seq<char> {
    match format {
        ChangelogFormat::Markdown =>
            "# Changelog\n\nAll notable changes to this project will be documented in this file.\n\n"@
            + content,
        ChangelogFormat::Rst => "Changelog\n"@ + repeat('=', 9) + "\n\n"@ + content,
        ChangelogFormat::Text => "CHANGELOG\n"@ + repeat('=', 60) + "\n\n"@ + content,
    }
}

fn blank(line: &Vec<char>) -> (r: bool)
    ensures
        r == (trimmed(line@).len() == 0),
{
    let t = trim(line);
    t.len() == 0
}

fn title_rule(line: &Vec<char>) -> (r: bool)
    ensures
        r == is_title_rule(trimmed(line@)),
{
    let t = trim(line);
    if t.len() == 0 {
        return false;
    }
    let mut i: usize = 0;
    while i < t.len()
        invariant
            i <= t.len(),
            t@ == trimmed(line@),
            forall|k: int| 0 <= k < i ==> #[trigger] t@[k] == '=',
        decreases t.len() - i,
    {
        if t[i] != '=' {
            return false;
        }
        i += 1;
    }
    true
}

fn find_markdown_place(all: &Vec<Vec<char>>) -> (r: usize)
    ensures
        r == markdown_place(views(all@), 0, false),
        r <= all.len(),
{
    let ghost l = views(all@);
    let mut found = false;
    let mut i: usize = 0;
    while i < all.len()
        invariant
            i <= all.len(),
            l == views(all@),
            markdown_place(l, 0, false) == markdown_place(l, i as int, found),
        decreases all.len() - i,
    {
        let t = trim(&all[i]);
        let title = chars_of("# ");
        let second = chars_of("## ");
        if t.len() > 0 {
            if matches_at(&t, 0, &title) {
                found = true;
            } else if found || matches_at(&t, 0, &second) {
                return i;
            }
        }
        i += 1;
    }
    i
}

fn find_rst_place(all: &Vec<Vec<char>>) -> (r: usize)
    ensures
        r == rst_place(views(all@), 0, false),
        r <= all.len(),
{
    let ghost l = views(all@);
    let mut found = false;
    let mut i: usize = 0;
    while i < all.len()
        invariant
            i <= all.len(),
            l == views(all@),
            rst_place(l, 0, false) == rst_place(l, i as int, found),
        decreases all.len() - i,
    {
        if blank(&all[i]) {
            i += 1;
        } else if found {
            return i;
        } else if i + 1 < all.len() && title_rule(&all[i + 1]) {
            found = true;
            i += 2;
        } else {
            i += 1;
        }
    }
    i
}

fn push_unlined(out: &mut Vec<char>, all: &Vec<Vec<char>>, from: usize, to: usize)
    requires
        from <= to <= all.len(),
    ensures
        final(out)@ == old(out)@ + unlined(views(all@).subrange(from as int, to as int)),
{
    let ghost parts = views(all@).subrange(from as int, to as int).map_values(
        |l: Seq<char>| l.push('\n'),
    );
    let mut i: usize = from;
    while i < to
        invariant
            from <= i <= to <= all.len(),
            parts == views(all@).subrange(from as int, to as int).map_values(
                |l: Seq<char>| l.push('\n'),
            ),
            out@ == old(out)@ + flat(parts.take(i - from)),
        decreases to - i,
    {
        append_chars(out, &all[i]);
        out.push('\n');
        proof {
            lemma_flat_push(parts.take(i - from), parts[i - from]);
            assert(parts.take(i - from + 1) =~= parts.take(i - from).push(parts[i - from]));
        }
        i += 1;
    }
    assert(parts.take(to - from) =~= parts);
}

impl ConsolidatedChangelog {
    /// Puts a new release at the head of an existing changelog.
    pub fn prepend_to_changelog(new_content: &str, existing_content: &str, format: ChangelogFormat)
        -> (r: String)
        ensures
            r@ == prepended(new_content@, existing_content@, format),
    {
        let fresh = chars_of(new_content);
        let release = trim(&fresh);
        match format {
            ChangelogFormat::Text => {
                let mut out = release;
                append_str(&mut out, "\n");
                push_repeat(&mut out, '=', 60);
                append_str(&mut out, "\n");
                append_str(&mut out, existing_content);
                string_of(&out)
            },
            _ => {
                let existing = chars_of(existing_content);
                let all = lines(&existing);
                let place = match format {
                    ChangelogFormat::Markdown => find_markdown_place(&all),
                    _ => find_rst_place(&all),
                };
                let mut out: Vec<char> = Vec::new();
                push_unlined(&mut out, &all, 0, place);
                append_chars(&mut out, &release);
                append_str(&mut out, "\n\n");
                push_unlined(&mut out, &all, place, all.len());
                proof {
                    let l = lines_of(existing_content@);
                }
                string_of(&out)
            },
        }
    }

    /// Puts a release under the head of a new changelog file.
    pub fn add_file_header(content: &str, format: ChangelogFormat) -> (r: String)
        ensures
            r@ == with_file_header(content@, format),
    {
        let mut out: Vec<char> = Vec::new();
        match format {
            ChangelogFormat::Markdown => {
                append_str(
                    &mut out,
                    "# Changelog\n\nAll notable changes to this project will be documented in this file.\n\n",
                );
            },
            ChangelogFormat::Rst => {
                append_str(&mut out, "Changelog\n");
                push_repeat(&mut out, '=', 9);
                append_str(&mut out, "\n\n");
            },
            ChangelogFormat::Text => {
                append_str(&mut out, "CHANGELOG\n");
                push_repeat(&mut out, '=', 60);
                append_str(&mut out, "\n\n");
            },
        }
        append_str(&mut out, content);
        string_of(&out)
    }
}

} // verus!
