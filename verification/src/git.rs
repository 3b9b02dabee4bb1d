//! What a release does with version tags and commit messages. Running git
//! itself is left to the caller: the functions here take what git printed
//! and hand back what to ask of it.

use crate::buildout::VersionUpdate;
use crate::config::string_views;
use crate::python::python_version;
use crate::text::{
    append_str, chars_of, has_at, lemma_views_push, lines, lines_of, listed, matches_at,
    push_listed, replace_all, replaced, slice_of, string_of, views,
};
use crate::version::{version_order, Order, Version, VersionView};
use vstd::prelude::*;

verus! {

/// Where git runs.
pub struct GitOps {
    work_dir: Option<String>,
}

/// The command line of GitHub.
pub struct GitHubOps;

/// One option with its value, where the value is given.
pub open spec fn option_with(flag: Seq<char>, value: Option<Seq<char>>) -> Seq<Seq<char>> {
    match value {
        Some(v) => seq![flag, v],
        None => Seq::empty(),
    }
}

/// One flag, where it is set.
pub open spec fn flag_if(flag: Seq<char>, set: bool) -> Seq<Seq<char>> {
    if set {
        seq![flag]
    } else {
        Seq::empty()
    }
}

/// The arguments with which a release is made on GitHub: the tag, then
/// title and notes where they are given, then the flags that are set.
pub open spec fn release_arguments(
    tag: Seq<char>,
    title: Option<Seq<char>>,
    notes: Option<Seq<char>>,
    draft: bool,
    prerelease: bool,
) -> Seq<Seq<char>> {
    seq!["release"@, "create"@, tag] + option_with("--title"@, title) + option_with(
        "--notes"@,
        notes,
    ) + flag_if("--draft"@, draft) + flag_if("--prerelease"@, prerelease)
}

impl GitHubOps {
    /// The arguments with which a release is made on GitHub.
    pub fn create_release(
        tag: &str,
        title: Option<&str>,
        notes: Option<&str>,
        draft: bool,
        prerelease: bool,
    ) -> (r: Vec<String>)
        ensures
            string_views(r@) == release_arguments(
                tag@,
                crate::release::str_view(title),
                crate::release::str_view(notes),
                draft,
                prerelease,
            ),
    {
        let mut r: Vec<String> = Vec::new();
        r.push("release".to_owned());
        r.push("create".to_owned());
        r.push(tag.to_owned());
        let ghost a = string_views(r@);
        if let Some(t) = title {
            r.push("--title".to_owned());
            r.push(t.to_owned());
        }
        if let Some(n) = notes {
            r.push("--notes".to_owned());
            r.push(n.to_owned());
        }
        if draft {
            r.push("--draft".to_owned());
        }
        let ghost d = string_views(r@);
        if prerelease {
            r.push("--prerelease".to_owned());
        }
        r
    }
}

/// A tag with the version that it names.
pub type TagView = (Seq<char>, VersionView);

/// What the tags with their versions stand for.
pub open spec fn tag_views(s: Seq<(String, Version)>) -> Seq<TagView> {
    s.map_values(|p: (String, Version)| (p.0@, p.1@))
}

/// The version that a tag names: what the tag reads as once `prefix` is
/// taken off its start. A tag that does not start with `prefix`, or whose
/// rest is no version, names none.
pub open spec fn tag_version(tag: Seq<char>, prefix: Seq<char>) -> Option<VersionView> {
    if has_at(tag, 0, prefix) {
        python_version(tag.subrange(prefix.len() as int, tag.len() as int))
    } else {
        None
    }
}

/// The tags that name a version, each with its version, in the order given.
pub open spec fn version_tags(tags: Seq<Seq<char>>, prefix: Seq<char>) -> Seq<TagView>
    decreases tags.len(),
{
    if tags.len() == 0 {
        Seq::empty()
    } else {
        match tag_version(tags.last(), prefix) {
            Some(v) => version_tags(tags.drop_last(), prefix).push((tags.last(), v)),
            None => version_tags(tags.drop_last(), prefix),
        }
    }
}

/// The first position at or after `i` of a tag whose version is below `v`,
/// or the number of tags where there is none.
pub open spec fn slot(sorted: Seq<TagView>, v: VersionView, i: int) -> int
    decreases sorted.len() - i,
{
    if 0 <= i < sorted.len() && version_order(sorted[i].1, v) != Order::Less {
        slot(sorted, v, i + 1)
    } else {
        i
    }
}

/// The tags from the highest version to the lowest. Tags of equal versions
/// keep the order in which they came.
pub open spec fn ranked(tags: Seq<TagView>) -> Seq<TagView>
    decreases tags.len(),
{
    if tags.len() == 0 {
        Seq::empty()
    } else {
        ranked(tags.drop_last()).insert(
            slot(ranked(tags.drop_last()), tags.last().1, 0),
            tags.last(),
        )
    }
}

/// The text that names the packages of a commit: `name = version` for each
/// update, with a comma and a blank between them.
pub open spec fn update_texts(updates: Seq<VersionUpdate>) -> Seq<Seq<char>> {
    updates.map_values(|u: VersionUpdate| u.package_name@ + " = "@ + u.new_version@)
}

/// The commit message for the updates on the given date: the template with
/// the packages for `{packages}` and the date for `{date}`.
pub open spec fn commit_message(updates: Seq<VersionUpdate>, template: Seq<char>, date: Seq<char>)
    -> Seq<char> {
    replaced(replaced(template, "{packages}"@, listed(update_texts(updates))), "{date}"@, date)
}

/// `chrono::Local::now` and the formatting of its result as year, month and
/// day. What comes back depends on the clock and the time zone, so nothing
/// is promised of it.
#[verifier::external_body]
fn current_date() -> (r: String) {
    chrono::Local::now().format("%Y-%m-%d").to_string()
}

fn find_slot(sorted: &Vec<(String, Version)>, v: &Version) -> (k: usize)
    ensures
        k == slot(tag_views(sorted@), v@, 0),
        k <= sorted.len(),
{
    let mut k: usize = 0;
    while k < sorted.len()
        invariant
            k <= sorted.len(),
            slot(tag_views(sorted@), v@, 0) == slot(tag_views(sorted@), v@, k as int),
        decreases sorted.len() - k,
    {
        match sorted[k].1.compare(v) {
            Order::Less => {
                return k;
            },
            _ => {},
        }
        k += 1;
    }
    k
}

impl GitOps {
    /// Git in the current directory.
    pub fn new() -> (r: GitOps)
        ensures
            r.work_dir() is None,
    {
        GitOps { work_dir: None }
    }

    /// Git in the directory `dir`.
    pub fn with_work_dir(self, dir: &str) -> (r: GitOps)
        ensures
            r.work_dir() == Some(dir@),
    {
        GitOps { work_dir: Some(dir.to_owned()) }
    }

    /// The directory in which git runs, if one was chosen.
    pub closed spec fn work_dir(&self) -> Option<Seq<char>> {
        crate::config::opt_view(self.work_dir)
    }

    /// The directory in which git runs, if one was chosen.
    pub fn directory(&self) -> (r: Option<&str>)
        ensures
            match r {
                Some(d) => self.work_dir() == Some(d@),
                None => self.work_dir() is None,
            },
    {
        match &self.work_dir {
            Some(d) => Some(d.as_str()),
            None => None,
        }
    }

    /// The arguments with which git makes a tag: with `-a` and the message
    /// where there is one, the bare name where there is none.
    pub fn tag(&self, tag_name: &str, message: Option<&str>) -> (r: Vec<String>)
        ensures
            string_views(r@) == (match message {
                Some(m) => seq!["tag"@, "-a"@, tag_name@, "-m"@, m@],
                None => seq!["tag"@, tag_name@],
            }),
    {
        let mut r: Vec<String> = Vec::new();
        r.push("tag".to_owned());
        match message {
            Some(m) => {
                r.push("-a".to_owned());
                r.push(tag_name.to_owned());
                r.push("-m".to_owned());
                r.push(m.to_owned());
            },
            None => {
                r.push(tag_name.to_owned());
            },
        }
        r
    }

    /// The arguments of the calls with which git pushes: the commits, and
    /// in a second call the tags where they are to go along.
    pub fn push(&self, include_tags: bool) -> (r: Vec<Vec<String>>)
        ensures
            r@.len() == (if include_tags {
                2int
            } else {
                1int
            }),
            string_views(r@[0]@) == seq!["push"@],
            include_tags ==> string_views(r@[1]@) == seq!["push"@, "--tags"@],
    {
        let mut r: Vec<Vec<String>> = Vec::new();
        let mut first: Vec<String> = Vec::new();
        first.push("push".to_owned());
        r.push(first);
        if include_tags {
            let mut second: Vec<String> = Vec::new();
            second.push("push".to_owned());
            second.push("--tags".to_owned());
            r.push(second);
        }
        r
    }

    /// The arguments with which git lists tags: all of them, or those that
    /// fit the pattern.
    pub fn tags(&self, pattern: Option<&str>) -> (r: Vec<String>)
        ensures
            string_views(r@) == (match pattern {
                Some(p) => seq!["tag"@, "-l"@, p@],
                None => seq!["tag"@, "-l"@],
            }),
    {
        let mut r: Vec<String> = Vec::new();
        r.push("tag".to_owned());
        r.push("-l".to_owned());
        if let Some(p) = pattern {
            r.push(p.to_owned());
        }
        r
    }

    /// The tags that git listed: the lines of what it printed.
    pub fn tag_names(output: &str) -> (r: Vec<String>)
        ensures
            string_views(r@) == lines_of(output@),
    {
        let text = chars_of(output);
        let all = lines(&text);
        let mut r: Vec<String> = Vec::new();
        let mut i: usize = 0;
        while i < all.len()
            invariant
                i <= all.len(),
                string_views(r@) == views(all@).take(i as int),
            decreases all.len() - i,
        {
            let t = string_of(&all[i]);
            proof {
                assert(string_views(r@.push(t)) =~= string_views(r@).push(t@));
            }
            r.push(t);
            i += 1;
        }
        r
    }

    /// The arguments with which git shows a file as it was at a reference.
    pub fn show_file_at_ref(&self, reference: &str, path: &str) -> (r: Vec<String>)
        ensures
            string_views(r@) == seq!["show"@, reference@ + ":"@ + path@],
    {
        let mut spot = chars_of(reference);
        append_str(&mut spot, ":");
        append_str(&mut spot, path);
        let mut r: Vec<String> = Vec::new();
        r.push("show".to_owned());
        r.push(string_of(&spot));
        r
    }

    /// Of all tags, those that name a version, from the highest version to
    /// the lowest.
    pub fn get_version_tags(&self, all_tags: &Vec<String>, prefix: &str) -> (r: Vec<
        (String, Version),
    >)
        ensures
            tag_views(r@) == ranked(version_tags(string_views(all_tags@), prefix@)),
    {
        let ghost tags = string_views(all_tags@);
        let p = chars_of(prefix);
        let mut out: Vec<(String, Version)> = Vec::new();
        let mut i: usize = 0;
        while i < all_tags.len()
            invariant
                i <= all_tags.len(),
                p@ == prefix@,
                tags == string_views(all_tags@),
                tag_views(out@) == ranked(version_tags(tags.take(i as int), prefix@)),
            decreases all_tags.len() - i,
        {
            let tag = chars_of(all_tags[i].as_str());
            let ghost before = version_tags(tags.take(i as int), prefix@);
            proof {
                assert(tags.take(i + 1).drop_last() =~= tags.take(i as int));
            }
            if matches_at(&tag, 0, &p) {
                let rest = slice_of(&tag, p.len(), tag.len());
                let text = string_of(&rest);
                match Version::parse(text.as_str()) {
                    Ok(v) => {
                        let k = find_slot(&out, &v);
                        let pair = (all_tags[i].clone(), v);
                        proof {
                            let grown = before.push((tag@, v@));
                            assert(grown.drop_last() =~= before);
                        }
                        out.insert(k, pair);
                    },
                    Err(_) => {},
                }
            }
            i += 1;
        }
        assert(tags.take(all_tags.len() as int) =~= tags);
        out
    }

    /// The highest version that a tag names, if any tag names one.
    pub fn get_latest_version(&self, all_tags: &Vec<String>, prefix: &str) -> (r: Option<Version>)
        ensures
            match r {
                Some(v) => ranked(
                    version_tags(string_views(all_tags@), prefix@),
                ).len() > 0 && v@ == ranked(
                    version_tags(string_views(all_tags@), prefix@),
                )[0].1,
                None => ranked(
                    version_tags(string_views(all_tags@), prefix@),
                ).len() == 0,
            },
    {
        let mut sorted = self.get_version_tags(all_tags, prefix);
        if sorted.len() == 0 {
            None
        } else {
            let first = sorted.remove(0);
            Some(first.1)
        }
    }

    /// The commit message for the updates on the given date.
    pub fn commit_message_on(updates: &[VersionUpdate], template: &str, date: &str) -> (r: String)
        ensures
            r@ == commit_message(updates@, template@, date@),
    {
        let mut texts: Vec<Vec<char>> = Vec::new();
        let mut i: usize = 0;
        while i < updates.len()
            invariant
                i <= updates.len(),
                views(texts@) == update_texts(updates@).take(i as int),
            decreases updates.len() - i,
        {
            let mut t = chars_of(updates[i].package_name.as_str());
            append_str(&mut t, " = ");
            append_str(&mut t, updates[i].new_version.as_str());
            proof {
                lemma_views_push(texts@, t);
            }
            texts.push(t);
            i += 1;
        }
        assert(update_texts(updates@).take(updates.len() as int) =~= update_texts(updates@));
        let mut packages: Vec<char> = Vec::new();
        push_listed(&mut packages, &texts);
        let tpl = chars_of(template);
        let d = chars_of(date);
        let a = replace_all(&tpl, "{packages}", &packages);
        let b = replace_all(&a, "{date}", &d);
        string_of(&b)
    }

    /// The commit message for the updates, dated today.
    pub fn generate_commit_message(updates: &[VersionUpdate], template: &str) -> (r: String)
        ensures
            exists|date: Seq<char>| r@ == commit_message(updates@, template@, date),
    {
        let date = current_date();
        GitOps::commit_message_on(updates, template, date.as_str())
    }
}

} // verus!
