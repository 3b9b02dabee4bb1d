//! Where the changelog of a package is looked for: whether a package
//! description is a changelog itself, and which addresses to try, in which
//! order. Fetching them is left to the caller.

use crate::changelog::skip;
use crate::config::{lowercase, opt_view, string_views, to_lowercase, ChangelogConfig};
use crate::text::{
    append_str, chars_of, contains, contains_text, digits_end, find_char, has_at, index_of,
    is_digit, matches_at, same_chars, scan_digits, scan_spaces, slice_of, spaces_end, string_of,
};
use vstd::prelude::*;

verus! {

/// Whether a release heading begins at `i`: `#`, optionally a second `#`,
/// white space, optionally `[`, digits, a dot and a digit.
pub open spec fn heading_mark_at(s: Seq<char>, i: int) -> bool {
    let m = skip(s, spaces_end(s, skip(s, i + 1, '#')), '[');
    let d = digits_end(s, m);
    0 <= i < s.len() && s[i] == '#' && d > m && d + 1 < s.len() && s[d] == '.' && is_digit(
        s[d + 1],
    )
}

/// The first position at or after `i` where a release heading begins, or
/// the length of the text where none does.
pub open spec fn first_mark(s: Seq<char>, i: int) -> int
    decreases s.len() - i,
{
    if 0 <= i < s.len() && !heading_mark_at(s, i) {
        first_mark(s, i + 1)
    } else {
        i
    }
}

/// Whether a text reads like a changelog: in lower case it speaks of a
/// changelog, of changes, of history or of release notes, or it holds a
/// release heading.
pub open spec fn reads_like_changelog(lower: Seq<char>, content: Seq<char>) -> bool {
    contains_text(lower, "changelog"@) || contains_text(lower, "changes"@) || contains_text(
        lower,
        "history"@,
    ) || contains_text(lower, "release notes"@) || first_mark(content, 0) < content.len()
}

fn mark_at(v: &Vec<char>, i: usize) -> (r: bool)
    requires
        i < v.len(),
    ensures
        r == heading_mark_at(v@, i as int),
{
    if v[i] != '#' {
        return false;
    }
    let j: usize = if i + 1 < v.len() && v[i + 1] == '#' {
        i + 2
    } else {
        i + 1
    };
    let k = scan_spaces(v, j);
    let m: usize = if k < v.len() && v[k] == '[' {
        k + 1
    } else {
        k
    };
    let d = scan_digits(v, m);
    d > m && d < v.len() && v[d] == '.' && d + 1 < v.len() && crate::text::digit(v[d + 1])
}

/// Whether a text reads like a changelog, given its lower-case form.
pub fn reads_like(lower: &str, content: &str) -> (r: bool)
    ensures
        r == reads_like_changelog(lower@, content@),
{
    let l = chars_of(lower);
    if contains(&l, "changelog") || contains(&l, "changes") || contains(&l, "history") || contains(
        &l,
        "release notes",
    ) {
        return true;
    }
    let c = chars_of(content);
    let mut i: usize = 0;
    while i < c.len() && !mark_at(&c, i)
        invariant
            i <= c.len(),
            first_mark(c@, 0) == first_mark(c@, i as int),
        decreases c.len() - i,
    {
        i += 1;
    }
    i < c.len()
}

/// Whether a text reads like a changelog.
pub fn looks_like_changelog(content: &str) -> (r: bool)
    ensures
        r == reads_like_changelog(lowercase(content@), content@),
{
    let lower = to_lowercase(content);
    reads_like(lower.as_str(), content)
}

/// `s` without `.git` at its end, however often it stands there.
pub open spec fn without_git(s: Seq<char>) -> Seq<char>
    decreases s.len(),
{
    if s.len() >= 4 && has_at(s, s.len() - 4, ".git"@) {
        without_git(s.subrange(0, s.len() - 4))
    } else {
        s
    }
}

/// The owner and the repository that an address names behind the
/// `github.com/` at `i`: each runs up to the next slash and is not empty.
/// The repository is given without `.git` at its end.
pub open spec fn repository_at(s: Seq<char>, i: int) -> Option<(Seq<char>, Seq<char>)> {
    let a = i + 11;
    let b = index_of(s, '/', a);
    let c = index_of(s, '/', b + 1);
    if has_at(s, i, "github.com/"@) && a < b && b < s.len() && b + 1 < c {
        Some((s.subrange(a, b), without_git(s.subrange(b + 1, c))))
    } else {
        None
    }
}

/// The owner and the repository that an address names, looked for from
/// position `i` on: those behind the first `github.com/` that has both.
pub open spec fn repository_from(s: Seq<char>, i: int) -> Option<(Seq<char>, Seq<char>)>
    decreases s.len() - i,
{
    if i < 0 || i >= s.len() {
        None
    } else if repository_at(s, i) is Some {
        repository_at(s, i)
    } else {
        repository_from(s, i + 1)
    }
}

/// The owner and the repository that an address names.
pub open spec fn repository_of(s: Seq<char>) -> Option<(Seq<char>, Seq<char>)> {
    repository_from(s, 0)
}

/// What an owner with a repository stands for.
pub open spec fn pair_view(r: Option<(String, String)>) -> Option<(Seq<char>, Seq<char>)> {
    match r {
        Some(p) => Some((p.0@, p.1@)),
        None => None,
    }
}

fn strip_git(v: Vec<char>) -> (r: Vec<char>)
    ensures
        r@ == without_git(v@),
{
    let suffix = chars_of(".git");
    proof {
        reveal_strlit(".git");
    }
    let mut t = v;
    while t.len() >= 4 && matches_at(&t, t.len() - 4, &suffix)
        invariant
            suffix@ == ".git"@,
            suffix@.len() == 4,
            without_git(v@) == without_git(t@),
        decreases t.len(),
    {
        t = slice_of(&t, 0, t.len() - 4);
    }
    t
}

/// The owner and the repository that an address on GitHub names.
pub fn github_repository(url: &str) -> (r: Option<(String, String)>)
    ensures
        pair_view(r) == repository_of(url@),
{
    let s = chars_of(url);
    let host = chars_of("github.com/");
    proof {
        reveal_strlit("github.com/");
    }
    let mut i: usize = 0;
    while i < s.len()
        invariant
            i <= s.len(),
            host@ == "github.com/"@,
            host@.len() == 11,
            s@ == url@,
            repository_of(s@) == repository_from(s@, i as int),
        decreases s.len() - i,
    {
        if matches_at(&s, i, &host) {
            let a = i + 11;
            let b = find_char(&s, '/', a);
            if a < b && b < s.len() {
                let c = find_char(&s, '/', b + 1);
                if b + 1 < c {
                    let owner = slice_of(&s, a, b);
                    let repo = strip_git(slice_of(&s, b + 1, c));
                    return Some((string_of(&owner), string_of(&repo)));
                }
            }
        }
        i += 1;
    }
    None
}

/// The address of a file of a repository at a branch.
pub open spec fn raw_url(owner: Seq<char>, repo: Seq<char>, branch: Seq<char>, file: Seq<char>)
    -> Seq<char> {
    "https://raw.githubusercontent.com/"@ + owner + "/"@ + repo + "/"@ + branch + "/"@ + file
}

/// The addresses of the files at one branch, in the order of the files.
pub open spec fn branch_urls(
    owner: Seq<char>,
    repo: Seq<char>,
    branch: Seq<char>,
    files: Seq<Seq<char>>,
) -> Seq<Seq<char>> {
    files.map_values(|f: Seq<char>| raw_url(owner, repo, branch, f))
}

/// The addresses at which the changelog of a repository is looked for:
/// branch by branch, and at each branch file by file.
pub open spec fn raw_urls(
    owner: Seq<char>,
    repo: Seq<char>,
    branches: Seq<Seq<char>>,
    files: Seq<Seq<char>>,
) -> Seq<Seq<char>>
    decreases branches.len(),
{
    if branches.len() == 0 {
        Seq::empty()
    } else {
        raw_urls(owner, repo, branches.drop_last(), files) + branch_urls(
            owner,
            repo,
            branches.last(),
            files,
        )
    }
}

/// The addresses at which the changelog of a repository is looked for.
pub fn github_changelog_urls(owner: &str, repo: &str, branches: &Vec<String>, files: &Vec<String>)
    -> (r: Vec<String>)
    ensures
        string_views(r@) == raw_urls(owner@, repo@, string_views(branches@), string_views(files@)),
{
    let ghost bs = string_views(branches@);
    let ghost fs = string_views(files@);
    let mut r: Vec<String> = Vec::new();
    let mut i: usize = 0;
    while i < branches.len()
        invariant
            i <= branches.len(),
            bs == string_views(branches@),
            fs == string_views(files@),
            string_views(r@) == raw_urls(owner@, repo@, bs.take(i as int), fs),
        decreases branches.len() - i,
    {
        let ghost before = string_views(r@);
        let ghost want = branch_urls(owner@, repo@, branches@[i as int]@, fs);
        let mut k: usize = 0;
        while k < files.len()
            invariant
                k <= files.len(),
                i < branches.len(),
                fs == string_views(files@),
                want == branch_urls(owner@, repo@, branches@[i as int]@, fs),
                string_views(r@) == before + want.take(k as int),
            decreases files.len() - k,
        {
            let mut u = chars_of("https://raw.githubusercontent.com/");
            append_str(&mut u, owner);
            append_str(&mut u, "/");
            append_str(&mut u, repo);
            append_str(&mut u, "/");
            append_str(&mut u, branches[i].as_str());
            append_str(&mut u, "/");
            append_str(&mut u, files[k].as_str());
            let t = string_of(&u);
            proof {
                assert(string_views(r@.push(t)) =~= string_views(r@).push(t@));
            }
            r.push(t);
            k += 1;
        }
        proof {
            assert(bs.take(i + 1).drop_last() =~= bs.take(i as int));
        }
        i += 1;
    }
    assert(bs.take(branches.len() as int) =~= bs);
    r
}

/// The branches at which changelogs are looked for: `main`, `master`, and
/// those that the configuration adds.
pub fn changelog_branches(config: &ChangelogConfig) -> (r: Vec<String>)
    ensures
        string_views(r@) == seq!["main"@, "master"@] + string_views(config.github_branches@),
{
    let mut r: Vec<String> = Vec::new();
    r.push("main".to_owned());
    r.push("master".to_owned());
    let ghost head = string_views(r@);
    let mut i: usize = 0;
    while i < config.github_branches.len()
        invariant
            i <= config.github_branches.len(),
            string_views(r@) == head + string_views(config.github_branches@).take(i as int),
        decreases config.github_branches.len() - i,
    {
        let b = config.github_branches[i].clone();
        proof {
            assert(string_views(r@.push(b)) =~= string_views(r@).push(b@));
        }
        r.push(b);
        i += 1;
    }
    r
}

/// The address under which the package index describes a package.
pub fn package_url(base_url: &str, package_name: &str) -> (r: String)
    ensures
        r@ == base_url@ + "/"@ + package_name@ + "/json"@,
{
    let mut u = chars_of(base_url);
    append_str(&mut u, "/");
    append_str(&mut u, package_name);
    append_str(&mut u, "/json");
    string_of(&u)
}

/// A link of a package: its name and its address.
pub type Link = (Seq<char>, Seq<char>);

/// What the links stand for.
pub open spec fn link_views(s: Seq<(String, String)>) -> Seq<Link> {
    s.map_values(|p: (String, String)| (p.0@, p.1@))
}

/// The first position at or after `i` of a link called `key`, or the
/// number of links where there is none.
pub open spec fn link_position(links: Seq<Link>, key: Seq<char>, i: int) -> int
    decreases links.len() - i,
{
    if 0 <= i < links.len() && links[i].0 != key {
        link_position(links, key, i + 1)
    } else {
        i
    }
}

/// The address of the link called `key`, if there is such a link.
pub open spec fn linked(links: Seq<Link>, key: Seq<char>) -> Option<Seq<char>> {
    if link_position(links, key, 0) < links.len() {
        Some(links[link_position(links, key, 0)].1)
    } else {
        None
    }
}

/// The address itself as a sequence of one, or nothing.
pub open spec fn direct(address: Option<Seq<char>>) -> Seq<Seq<char>> {
    match address {
        Some(a) => seq![a],
        None => Seq::empty(),
    }
}

/// The addresses to try for an address that may lead to GitHub: those of
/// the repository that it names, where it holds `github.com` and names one.
pub open spec fn by_repository(
    address: Option<Seq<char>>,
    branches: Seq<Seq<char>>,
    files: Seq<Seq<char>>,
) -> Seq<Seq<char>> {
    match address {
        Some(a) => if contains_text(a, "github.com"@) {
            match repository_of(a) {
                Some((owner, repo)) => raw_urls(owner, repo, branches, files),
                None => Seq::empty(),
            }
        } else {
            Seq::empty()
        },
        None => Seq::empty(),
    }
}

/// The addresses at which the changelog of a package is looked for, in the
/// order in which they are tried: the links called `Changelog`, `Changes`,
/// `History` and `Release Notes`; then the repositories that the links
/// called `Homepage`, `Source`, `Repository` and `GitHub` name; then the
/// repository that the home page names.
pub open spec fn changelog_addresses(
    links: Seq<Link>,
    home_page: Option<Seq<char>>,
    branches: Seq<Seq<char>>,
    files: Seq<Seq<char>>,
) -> Seq<Seq<char>> {
    direct(linked(links, "Changelog"@)) + direct(linked(links, "Changes"@)) + direct(
        linked(links, "History"@),
    ) + direct(linked(links, "Release Notes"@)) + by_repository(
        linked(links, "Homepage"@),
        branches,
        files,
    ) + by_repository(linked(links, "Source"@), branches, files) + by_repository(
        linked(links, "Repository"@),
        branches,
        files,
    ) + by_repository(linked(links, "GitHub"@), branches, files) + by_repository(
        home_page,
        branches,
        files,
    )
}

fn find_link(links: &Vec<(String, String)>, key: &str) -> (r: Option<String>)
    ensures
        opt_view(r) == linked(link_views(links@), key@),
{
    let k = chars_of(key);
    let ghost l = link_views(links@);
    let mut i: usize = 0;
    while i < links.len()
        invariant
            i <= links.len(),
            l == link_views(links@),
            k@ == key@,
            link_position(l, key@, 0) == link_position(l, key@, i as int),
        decreases links.len() - i,
    {
        let own = chars_of(links[i].0.as_str());
        if same_chars(&own, &k) {
            return Some(links[i].1.clone());
        }
        i += 1;
    }
    None
}

fn push_direct(out: &mut Vec<String>, address: Option<String>)
    ensures
        string_views(final(out)@) == string_views(old(out)@) + direct(opt_view(address)),
{
    if let Some(a) = address {
        out.push(a);
    }
}

fn push_by_repository(
    out: &mut Vec<String>,
    address: Option<String>,
    branches: &Vec<String>,
    files: &Vec<String>,
)
    ensures
        string_views(final(out)@) == string_views(old(out)@) + by_repository(
            opt_view(address),
            string_views(branches@),
            string_views(files@),
        ),
{
    let mut found: Vec<String> = Vec::new();
    match address {
        Some(a) => {
            let c = chars_of(a.as_str());
            if contains(&c, "github.com") {
                match github_repository(a.as_str()) {
                    Some((owner, repo)) => {
                        found = github_changelog_urls(
                            owner.as_str(),
                            repo.as_str(),
                            branches,
                            files,
                        );
                    },
                    None => {},
                }
            }
        },
        None => {},
    }
    out.append(&mut found);
}

/// The addresses at which the changelog of a package is looked for, in the
/// order in which they are tried.
pub fn changelog_urls(
    links: &Vec<(String, String)>,
    home_page: Option<String>,
    branches: &Vec<String>,
    files: &Vec<String>,
) -> (r: Vec<String>)
    ensures
        string_views(r@) == changelog_addresses(
            link_views(links@),
            opt_view(home_page),
            string_views(branches@),
            string_views(files@),
        ),
{
    let mut r: Vec<String> = Vec::new();
    push_direct(&mut r, find_link(links, "Changelog"));
    push_direct(&mut r, find_link(links, "Changes"));
    push_direct(&mut r, find_link(links, "History"));
    push_direct(&mut r, find_link(links, "Release Notes"));
    push_by_repository(&mut r, find_link(links, "Homepage"), branches, files);
    push_by_repository(&mut r, find_link(links, "Source"), branches, files);
    push_by_repository(&mut r, find_link(links, "Repository"), branches, files);
    push_by_repository(&mut r, find_link(links, "GitHub"), branches, files);
    push_by_repository(&mut r, home_page, branches, files);
    r
}

} // verus!
