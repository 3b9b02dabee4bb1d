//! The small decisions of a release run: which packages to look at, which
//! version to release, what to write in commit and release notes, and the
//! date of the day.

use crate::buildout::VersionUpdate;
use crate::config::{
    is_blank, level_views, package_config_views, string_views, Config, PackageConfig,
    PackageConfigView, VersionBumpType,
};
use crate::error::ReleaserError;
use crate::git::{ranked, update_texts, version_tags, GitOps};
use crate::manager::{level_named, unknown_level, VersionManager};
use crate::number::{decimal_chars, decimal_text};
use crate::python::{pieces, split};
use crate::text::{
    append_chars, append_str, chars_of, flat, lemma_flat_push, lemma_views_push, listed,
    push_listed, push_repeat, repeat, replace_all, replaced, scan_spaces, same_chars, string_of,
    trim, trim_end, trimmed, trimmed_end, views,
};
use crate::version::{bump_target, bumped, release, version_text, Version};
use vstd::prelude::*;

verus! {

/// Whether a year has a 29th of February.
pub open spec fn is_leap(year: nat) -> bool {
    (year % 4 == 0 && year % 100 != 0) || year % 400 == 0
}

/// The days of a year.
pub open spec fn days_in_year(year: nat) -> nat {
    if is_leap(year) {
        366
    } else {
        365
    }
}

/// The days of month `m` of a year, `m` counted from zero.
pub open spec fn days_in_month(year: nat, m: nat) -> nat {
    if m == 1 {
        if is_leap(year) {
            29
        } else {
            28
        }
    } else if m == 3 || m == 5 || m == 8 || m == 10 {
        30
    } else {
        31
    }
}

/// The year in which day `days` lies, days counted from the first day of
/// `year`, and the place of the day in that year.
pub open spec fn year_of(year: nat, days: nat) -> (nat, nat)
    decreases days,
{
    if days < days_in_year(year) {
        (year, days)
    } else {
        year_of(year + 1, (days - days_in_year(year)) as nat)
    }
}

/// The month in which day `days` lies, days counted from the first day of
/// month `m`, and the place of the day in that month. Months are numbered
/// from one; zero says that the day lies behind the year's end.
pub open spec fn month_of(year: nat, m: nat, days: nat) -> (nat, nat)
    decreases 12 - m,
{
    if m >= 12 {
        (0, days)
    } else if days < days_in_month(year, m) {
        (m + 1, days)
    } else {
        month_of(year, m + 1, (days - days_in_month(year, m)) as nat)
    }
}

/// The digits of `n`, with zeros in front up to `width` characters.
pub open spec fn zero_padded(n: nat, width: nat) -> Seq<char> {
    if decimal_text(n).len() < width {
        repeat('0', (width - decimal_text(n).len()) as nat) + decimal_text(n)
    } else {
        decimal_text(n)
    }
}

/// The date of the day that begins `secs / 86400` days after the first of
/// January 1970, as year, month and day with hyphens between.
pub open spec fn date_text(secs: nat) -> Seq<char> {
    let (year, in_year) = year_of(1970, secs / 86400);
    let (month, in_month) = month_of(year, 0, in_year);
    zero_padded(year, 4) + "-"@ + zero_padded(month, 2) + "-"@ + zero_padded(in_month + 1, 2)
}

/// Whether a year has a 29th of February.
pub fn is_leap_year(year: u64) -> (r: bool)
    ensures
        r == is_leap(year as nat),
{
    (year % 4 == 0 && year % 100 != 0) || (year % 400 == 0)
}

fn year_length(year: u64) -> (r: u64)
    ensures
        r == days_in_year(year as nat),
{
    if is_leap_year(year) {
        366
    } else {
        365
    }
}

fn month_length(year: u64, m: u64) -> (r: u64)
    ensures
        r == days_in_month(year as nat, m as nat),
{
    if m == 1 {
        if is_leap_year(year) {
            29
        } else {
            28
        }
    } else if m == 3 || m == 5 || m == 8 || m == 10 {
        30
    } else {
        31
    }
}

fn push_padded(out: &mut Vec<char>, n: u64, width: usize)
    ensures
        final(out)@ == old(out)@ + zero_padded(n as nat, width as nat),
{
    let d = decimal_chars(n);
    if d.len() < width {
        push_repeat(out, '0', width - d.len());
    }
    append_chars(out, &d);
}

/// The date of the day in which second `secs` after the beginning of 1970
/// lies.
pub fn current_date(secs: u64) -> (r: String)
    ensures
        r@ == date_text(secs as nat),
{
    let days = secs / 86400;
    let mut year: u64 = 1970;
    let mut remaining: u64 = days;
    while remaining >= year_length(year)
        invariant
            year_of(1970, days as nat) == year_of(year as nat, remaining as nat),
            year - 1970 <= days - remaining,
            remaining <= days,
            1970 <= year,
            days <= u64::MAX / 86400,
        decreases remaining,
    {
        remaining -= year_length(year);
        year += 1;
    }
    let mut m: u64 = 0;
    let ghost in_year = remaining;
    while m < 12 && remaining >= month_length(year, m)
        invariant
            m <= 12,
            remaining <= in_year,
            month_of(year as nat, 0, in_year as nat) == month_of(
                year as nat,
                m as nat,
                remaining as nat,
            ),
        decreases 12 - m,
    {
        remaining -= month_length(year, m);
        m += 1;
    }
    let month: u64 = if m < 12 {
        m + 1
    } else {
        0
    };
    let mut out: Vec<char> = Vec::new();
    push_padded(&mut out, year, 4);
    append_str(&mut out, "-");
    push_padded(&mut out, month, 2);
    append_str(&mut out, "-");
    push_padded(&mut out, remaining + 1, 2);
    string_of(&out)
}

/// The text that names the packages of a commit: nothing for no update,
/// `name = version` for one, and for more the same with a comma and a blank
/// between them and `and` before the last.
pub open spec fn packages_text(updates: Seq<VersionUpdate>) -> Seq<char> {
    if updates.len() == 0 {
        Seq::empty()
    } else if updates.len() == 1 {
        update_texts(updates)[0]
    } else {
        listed(update_texts(updates).drop_last()) + " and "@ + update_texts(updates).last()
    }
}

/// The commit message of an update run: the custom message where there is
/// one; else the template, or `Use {packages}` where the template is blank,
/// with the packages for `{packages}` and the date for `{date}`.
pub open spec fn commit_text(
    updates: Seq<VersionUpdate>,
    template: Seq<char>,
    custom: Option<Seq<char>>,
    date: Seq<char>,
) -> Seq<char> {
    match custom {
        Some(m) => m,
        None => replaced(
            replaced(
                if is_blank(template) {
                    "Use {packages}"@
                } else {
                    template
                },
                "{packages}"@,
                packages_text(updates),
            ),
            "{date}"@,
            date,
        ),
    }
}

/// The text of an optional string slice.
pub open spec fn str_view(t: Option<&str>) -> Option<Seq<char>> {
    match t {
        Some(t) => Some(t@),
        None => None,
    }
}

fn update_chars(updates: &[VersionUpdate]) -> (r: Vec<Vec<char>>)
    ensures
        views(r@) == update_texts(updates@),
{
    let mut texts: Vec<Vec<char>> = Vec::new();
    let mut i: usize = 0;
    while i < updates.len()
        invariant
            i <= updates.len(),
            views(texts@) == update_texts(updates@).take(i as int),
        decreases updates.len() - i,
    {
        let mut t = chars_of(updates[i].package_name.as_str());
        append_str(&mut t, " = ");
        append_str(&mut t, updates[i].new_version.as_str());
        proof {
            lemma_views_push(texts@, t);
        }
        texts.push(t);
        i += 1;
    }
    texts
}

/// The commit message of an update run on the given date.
pub fn generate_commit_message(
    updates: &[VersionUpdate],
    template: &str,
    custom: Option<&str>,
    date: &str,
) -> (r: String)
    ensures
        r@ == commit_text(updates@, template@, str_view(custom), date@),
{
    if let Some(m) = custom {
        return m.to_owned();
    }
    let mut texts = update_chars(updates);
    let mut packages: Vec<char> = Vec::new();
    if texts.len() == 1 {
        append_chars(&mut packages, &texts[0]);
    } else if texts.len() > 1 {
        let last = texts.pop().unwrap();
        assert(views(texts@) =~= update_texts(updates@).drop_last());
        push_listed(&mut packages, &texts);
        append_str(&mut packages, " and ");
        append_chars(&mut packages, &last);
    }
    let tpl = chars_of(template);
    let effective = if scan_spaces(&tpl, 0) >= tpl.len() {
        chars_of("Use {packages}")
    } else {
        tpl
    };
    let d = chars_of(date);
    let a = replace_all(&effective, "{packages}", &packages);
    let b = replace_all(&a, "{date}", &d);
    string_of(&b)
}

/// One line of release notes: a package and its two versions.
pub open spec fn note_line(u: VersionUpdate) -> Seq<char> {
    "- **"@ + u.package_name@ + "**: "@ + u.old_version@ + " \u{2192} "@ + u.new_version@ + "\n"@
}

/// The release notes of a tag: a heading, and where there are updates a
/// second heading and one line for each.
pub open spec fn release_notes(updates: Seq<VersionUpdate>, tag: Seq<char>) -> Seq<char> {
    "## Release "@ + tag + "\n\n"@ + (if updates.len() > 0 {
        "### Package Updates\n\n"@ + flat(updates.map_values(|u: VersionUpdate| note_line(u)))
    } else {
        Seq::empty()
    })
}

/// The release notes of a tag.
pub fn generate_release_notes(updates: &[VersionUpdate], tag: &str) -> (r: String)
    ensures
        r@ == release_notes(updates@, tag@),
{
    let mut out = chars_of("## Release ");
    append_str(&mut out, tag);
    append_str(&mut out, "\n\n");
    if updates.len() > 0 {
        append_str(&mut out, "### Package Updates\n\n");
        let ghost head = out@;
        let ghost parts = updates@.map_values(|u: VersionUpdate| note_line(u));
        let mut i: usize = 0;
        while i < updates.len()
            invariant
                i <= updates.len(),
                parts == updates@.map_values(|u: VersionUpdate| note_line(u)),
                out@ == head + flat(parts.take(i as int)),
            decreases updates.len() - i,
        {
            append_str(&mut out, "- **");
            append_str(&mut out, updates[i].package_name.as_str());
            append_str(&mut out, "**: ");
            append_str(&mut out, updates[i].old_version.as_str());
            append_str(&mut out, " \u{2192} ");
            append_str(&mut out, updates[i].new_version.as_str());
            append_str(&mut out, "\n");
            proof {
                lemma_flat_push(parts.take(i as int), parts[i as int]);
                assert(parts.take(i + 1) =~= parts.take(i as int).push(parts[i as int]));
            }
            i += 1;
        }
        assert(parts.take(updates.len() as int) =~= parts);
    }
    string_of(&out)
}

/// Rendered releases put together, the last one first: each without the
/// white space at its end, with an empty line between neighbours.
pub open spec fn combined(entries: Seq<Seq<char>>) -> Seq<char>
    decreases entries.len(),
{
    if entries.len() == 0 {
        Seq::empty()
    } else if entries.len() == 1 {
        trimmed_end(entries[0])
    } else {
        trimmed_end(entries.last()) + "\n\n"@ + combined(entries.drop_last())
    }
}

/// Rendered releases put together, the last one first.
pub fn combine_rendered_changelog_entries(entries: Vec<String>) -> (r: String)
    ensures
        r@ == combined(string_views(entries@)),
{
    let ghost e = string_views(entries@);
    let mut out: Vec<char> = Vec::new();
    let mut i: usize = entries.len();
    assert(e.take(i as int) =~= e);
    while i > 0
        invariant
            i <= entries.len(),
            e == string_views(entries@),
            combined(e) == out@ + combined(e.take(i as int)),
        decreases i,
    {
        let text = chars_of(entries[i - 1].as_str());
        let t = trim_end(&text);
        append_chars(&mut out, &t);
        if i > 1 {
            append_str(&mut out, "\n\n");
        }
        proof {
            let part = e.take(i as int);
            assert(part.drop_last() =~= e.take(i - 1));
        }
        i -= 1;
    }
    string_of(&out)
}

/// The names that a filter lists: its pieces between commas, trimmed.
pub open spec fn filter_names(filter: Seq<char>) -> Seq<Seq<char>> {
    pieces(filter, ',').map_values(|p: Seq<char>| trimmed(p))
}

/// The packages whose name is among `names`, in the order given.
pub open spec fn kept(packages: Seq<PackageConfigView>, names: Seq<Seq<char>>) -> Seq<
    PackageConfigView,
>
    decreases packages.len(),
{
    if packages.len() == 0 {
        Seq::empty()
    } else if names.contains(packages.last().name) {
        kept(packages.drop_last(), names).push(packages.last())
    } else {
        kept(packages.drop_last(), names)
    }
}

/// The packages to look at: all where there is no filter, else those that
/// the filter names.
pub open spec fn filtered(packages: Seq<PackageConfigView>, filter: Option<Seq<char>>) -> Seq<
    PackageConfigView,
> {
    match filter {
        Some(f) => kept(packages, filter_names(f)),
        None => packages,
    }
}

fn among(names: &Vec<Vec<char>>, name: &Vec<char>) -> (r: bool)
    ensures
        r == views(names@).contains(name@),
{
    let mut i: usize = 0;
    while i < names.len()
        invariant
            i <= names.len(),
            forall|k: int| 0 <= k < i ==> views(names@)[k] != name@,
        decreases names.len() - i,
    {
        if same_chars(&names[i], name) {
            assert(views(names@)[i as int] == name@);
            return true;
        }
        i += 1;
    }
    false
}

/// The packages to look at: all, or those that the filter names.
pub fn filter_packages(packages: &[PackageConfig], filter: Option<&str>) -> (r: Vec<PackageConfig>)
    ensures
        package_config_views(r@) == filtered(package_config_views(packages@), str_view(filter)),
{
    let ghost all = package_config_views(packages@);
    let mut names: Vec<Vec<char>> = Vec::new();
    match filter {
        Some(f) => {
            let c = chars_of(f);
            let parts = split(&c, ',');
            let mut k: usize = 0;
            while k < parts.len()
                invariant
                    k <= parts.len(),
                    views(parts@) == pieces(f@, ','),
                    views(names@) == filter_names(f@).take(k as int),
                decreases parts.len() - k,
            {
                let t = trim(&parts[k]);
                proof {
                    lemma_views_push(names@, t);
                }
                names.push(t);
                k += 1;
            }
            assert(filter_names(f@).take(parts.len() as int) =~= filter_names(f@));
        },
        None => {},
    }
    let ghost wanted = views(names@);
    let mut r: Vec<PackageConfig> = Vec::new();
    let mut i: usize = 0;
    while i < packages.len()
        invariant
            i <= packages.len(),
            all == package_config_views(packages@),
            wanted == views(names@),
            filter is Some ==> package_config_views(r@) == kept(all.take(i as int), wanted),
            filter is None ==> package_config_views(r@) == all.take(i as int),
        decreases packages.len() - i,
    {
        let name = chars_of(packages[i].name.as_str());
        let keep = match filter {
            Some(_) => among(&names, &name),
            None => true,
        };
        proof {
            assert(all.take(i + 1).drop_last() =~= all.take(i as int));
        }
        if keep {
            let copy = packages[i].duplicate();
            r.push(copy);
        }
        i += 1;
    }
    assert(all.take(packages.len() as int) =~= all);
    r
}

/// What to release: the tag where one is given; else the highest version
/// among the tags, or `0.0.0` where no tag names a version, bumped at the
/// level given. The failure where neither tag nor level is given, where the
/// level is not known, or where the bump would overflow.
pub open spec fn resolved(
    levels: Seq<(Seq<char>, VersionBumpType)>,
    tags: Seq<Seq<char>>,
    prefix: Seq<char>,
    tag: Option<Seq<char>>,
    bump: Option<Seq<char>>,
) -> Result<Seq<char>, Seq<char>> {
    match (tag, bump) {
        (Some(t), _) => Ok(t),
        (None, None) => Err("Either --tag or --bump must be specified"@),
        (None, Some(level)) => match level_named(levels, level) {
            None => Err(unknown_level(levels, level)),
            Some(kind) => {
                let current = if ranked(version_tags(tags, prefix)).len() > 0 {
                    ranked(version_tags(tags, prefix))[0].1
                } else {
                    release(0, 0, 0)
                };
                if bump_target(current, kind) < u64::MAX {
                    Ok(version_text(bumped(current, kind)))
                } else {
                    Err(version_text(current))
                }
            },
        },
    }
}

/// What an outcome says of the version to release: the version, or the
/// message of the failure.
pub open spec fn resolution(r: Result<String, ReleaserError>) -> Option<Result<Seq<char>, Seq<char>>> {
    match r {
        Ok(t) => Some(Ok(t@)),
        Err(ReleaserError::ConfigError(m)) => Some(Err(m@)),
        Err(ReleaserError::VersionError(m)) => Some(Err(m@)),
        Err(_) => None,
    }
}

/// The version to release, from the tag or the level that was asked for
/// and the tags that there are.
pub fn resolve_version(
    config: &Config,
    all_tags: &Vec<String>,
    tag: Option<String>,
    bump: Option<String>,
) -> (r: Result<String, ReleaserError>)
    ensures
        resolution(r) == Some(
            resolved(
                level_views(config.version.levels@),
                string_views(all_tags@),
                config.github.tag_prefix@,
                crate::config::opt_view(tag),
                crate::config::opt_view(bump),
            ),
        ),
        r is Err ==> (r matches Err(ReleaserError::ConfigError(_)) <==> tag is None && bump
            is None),
{
    if let Some(t) = tag {
        return Ok(t);
    }
    match bump {
        None => Err(
            ReleaserError::ConfigError("Either --tag or --bump must be specified".to_owned()),
        ),
        Some(level) => {
            let manager = VersionManager::new(&config.version);
            let kind = match manager.get_bump_type(level.as_str()) {
                Ok(k) => k,
                Err(e) => {
                    return Err(e);
                },
            };
            let git = GitOps::new();
            let current = match git.get_latest_version(all_tags, config.github.tag_prefix.as_str()) {
                Some(v) => v,
                None => Version::new(0, 0, 0),
            };
            match current.checked_bump(kind) {
                Some(next) => Ok(next.to_string()),
                None => Err(ReleaserError::VersionError(current.to_string())),
            }
        },
    }
}

} // verus!
