//! What the package index says of a package, and the choice of the version
//! to update to. Fetching the data is left to the caller.

use crate::constraint::{
    accepts, constraint_matches, constraint_reading, interval_views, parse_version_constraint,
    ConstraintView, VersionReq,
};
use crate::error::ReleaserError;
use crate::python::{parse_python_version, python_version};
use crate::text::{append_str, chars_of, string_of};
use crate::version::{version_order, Order, Version, VersionView};
use vstd::prelude::*;

verus! {

/// One file of a release.
#[derive(Debug, Clone)]
pub struct ReleaseInfo {
    pub filename: String,
    pub url: String,
    pub upload_time: String,
    pub yanked: bool,
}

/// The description of a package.
#[derive(Debug, Clone)]
pub struct PackageInfo {
    pub name: String,
    pub version: String,
    pub summary: Option<String>,
    pub home_page: Option<String>,
    pub project_urls: Option<Vec<(String, String)>>,
}

/// What the index holds of a package: its description and, for each
/// version text, the files of that release.
#[derive(Debug, Clone)]
pub struct PyPiPackageInfo {
    pub info: PackageInfo,
    pub releases: Vec<(String, Vec<ReleaseInfo>)>,
}

/// The version chosen for a package.
#[derive(Debug, Clone)]
pub struct VersionInfo {
    pub package_name: String,
    pub version: String,
    pub is_prerelease: bool,
}

/// A release as the choice sees it: its version text, and for each of its
/// files whether it was yanked.
pub type ReleaseView = (Seq<char>, Seq<bool>);

/// For each file whether it was yanked.
pub open spec fn yanked_flags(files: Seq<ReleaseInfo>) -> Seq<bool> {
    files.map_values(|f: ReleaseInfo| f.yanked)
}

/// The releases as the choice sees them.
pub open spec fn release_views(s: Seq<(String, Vec<ReleaseInfo>)>) -> Seq<ReleaseView> {
    s.map_values(|p: (String, Vec<ReleaseInfo>)| (p.0@, yanked_flags(p.1@)))
}

/// Whether a release can be installed: it has a file that was not yanked.
pub open spec fn is_usable(flags: Seq<bool>) -> bool {
    exists|k: int| 0 <= k < flags.len() && !#[trigger] flags[k]
}

/// What is asked of a version: a constraint, if there is one, and whether
/// pre-releases are welcome.
pub struct Wish {
    pub constraint: Option<ConstraintView>,
    pub allow_prerelease: bool,
}

/// Whether a version meets the wish.
pub open spec fn is_wanted(w: Wish, v: VersionView) -> bool {
    (w.allow_prerelease || v.pre_release.len() == 0) && match w.constraint {
        Some(c) => accepts(c.comparators, c.intervals, v),
        None => true,
    }
}

/// The version with which a release takes part in the choice: the one that
/// its text reads as, where the release is usable and the version wanted.
pub open spec fn candidate(r: ReleaseView, w: Wish) -> Option<VersionView> {
    match python_version(r.0) {
        Some(v) => if is_usable(r.1) && is_wanted(w, v) {
            Some(v)
        } else {
            None
        },
        None => None,
    }
}

/// The position of the best among the first `n` candidates: the one with
/// the highest version, and of several with that version the first. A
/// release that is no candidate stands as nothing in the sequence.
pub open spec fn best_of(c: Seq<Option<VersionView>>, n: int) -> Option<int>
    decreases n,
{
    if n <= 0 || n > c.len() {
        None
    } else {
        match (c[n - 1], best_of(c, n - 1)) {
            (None, before) => before,
            (Some(_), None) => Some(n - 1),
            (Some(v), Some(b)) => if c[b] is Some && version_order(v, c[b]->0) == Order::Greater {
                Some(n - 1)
            } else {
                Some(b)
            },
        }
    }
}

/// The candidates among the releases, each at the place of its release.
pub open spec fn candidates(releases: Seq<ReleaseView>, w: Wish) -> Seq<Option<VersionView>> {
    releases.map_values(|r: ReleaseView| candidate(r, w))
}

/// The position of the release chosen among the first `n`.
pub open spec fn chosen(releases: Seq<ReleaseView>, n: int, w: Wish) -> Option<int> {
    best_of(candidates(releases, w), n)
}

/// Whether a version, if there is one, is a pre-release.
pub open spec fn prerelease_flag(v: Option<VersionView>) -> Option<bool> {
    match v {
        Some(v) => Some(v.pre_release.len() > 0),
        None => None,
    }
}

fn usable(files: &Vec<ReleaseInfo>) -> (r: bool)
    ensures
        r == is_usable(yanked_flags(files@)),
{
    let mut i: usize = 0;
    while i < files.len()
        invariant
            i <= files.len(),
            forall|k: int| 0 <= k < i ==> #[trigger] yanked_flags(files@)[k],
        decreases files.len() - i,
    {
        if !files[i].yanked {
            assert(!yanked_flags(files@)[i as int]);
            return true;
        }
        i += 1;
    }
    false
}

/// A constraint in the two parts in which it is read.
pub struct Limits<'a> {
    pub req: &'a VersionReq,
    pub intervals: &'a Vec<(Version, Version)>,
}

/// What the limits stand for.
pub open spec fn limits_view(l: Option<Limits>) -> Option<ConstraintView> {
    match l {
        Some(l) => Some(ConstraintView { comparators: l.req@, intervals: interval_views(l.intervals@) }),
        None => None,
    }
}

/// The release chosen for the update, if any release is a candidate: the
/// name of the package as the index writes it, the version text of the
/// release, and whether that version is a pre-release.
pub fn pick(info: &PyPiPackageInfo, limits: Option<Limits>, allow_prerelease: bool) -> (r: Option<
    VersionInfo,
>)
    ensures
        match chosen(
            release_views(info.releases@),
            info.releases@.len() as int,
            Wish { constraint: limits_view(limits), allow_prerelease },
        ) {
            Some(k) => r matches Some(found) && found.package_name@ == info.info.name@
                && 0 <= k < info.releases@.len() && found.version@ == info.releases@[k].0@
                && Some(found.is_prerelease) == prerelease_flag(
                python_version(info.releases@[k].0@),
            ),
            None => r is None,
        },
{
    let ghost w = Wish { constraint: limits_view(limits), allow_prerelease };
    let ghost rs = release_views(info.releases@);
    let mut best: Option<(usize, Version)> = None;
    let mut i: usize = 0;
    while i < info.releases.len()
        invariant
            i <= info.releases.len(),
            rs == release_views(info.releases@),
            w == (Wish { constraint: limits_view(limits), allow_prerelease }),
            match best {
                Some(b) => chosen(rs, i as int, w) == Some(b.0 as int) && b.0 < i && candidate(
                    rs[b.0 as int],
                    w,
                ) == Some(b.1@),
                None => chosen(rs, i as int, w) is None,
            },
        decreases info.releases.len() - i,
    {
        let mut found: Option<Version> = None;
        if usable(&info.releases[i].1) {
            match parse_python_version(info.releases[i].0.as_str()) {
                Some(v) => {
                    let fits = match &limits {
                        Some(l) => constraint_matches(l.req, l.intervals, &v),
                        None => true,
                    };
                    if fits && (allow_prerelease || !v.is_prerelease()) {
                        found = Some(v);
                    }
                },
                None => {},
            }
        }
        proof {
            if best is Some {
                let (k, _v) = best->0;
            }
        }
        match found {
            Some(v) => {
                let better = match &best {
                    Some(b) => match v.compare(&b.1) {
                        Order::Greater => true,
                        _ => false,
                    },
                    None => true,
                };
                if better {
                    best = Some((i, v));
                }
            },
            None => {},
        }
        i += 1;
    }
    match best {
        Some((k, v)) => {
            Some(
                VersionInfo {
                    package_name: info.info.name.clone(),
                    version: info.releases[k].0.clone(),
                    is_prerelease: v.is_prerelease(),
                },
            )
        },
        None => None,
    }
}

/// The newest usable version of a package. Where there is none, the error
/// says so and names the package.
pub fn select_latest_version(info: &PyPiPackageInfo, package_name: &str, allow_prerelease: bool)
    -> (r: Result<VersionInfo, ReleaserError>)
    ensures
        match chosen(
            release_views(info.releases@),
            info.releases@.len() as int,
            Wish { constraint: None, allow_prerelease },
        ) {
            Some(k) => r matches Ok(found) && found.package_name@ == info.info.name@ && 0 <= k
                < info.releases@.len() && found.version@ == info.releases@[k].0@ && Some(
                found.is_prerelease,
            ) == prerelease_flag(python_version(info.releases@[k].0@)),
            None => r matches Err(ReleaserError::PyPiError(m)) && m@
                == "No valid versions found for "@ + package_name@,
        },
{
    match pick(info, None, allow_prerelease) {
        Some(found) => Ok(found),
        None => {
            let mut m = chars_of("No valid versions found for ");
            append_str(&mut m, package_name);
            Err(ReleaserError::PyPiError(string_of(&m)))
        },
    }
}

/// The newest usable version of a package that meets a constraint. A text
/// that is no constraint fails as it does when it is read; where no version
/// meets the constraint, the error says so and names constraint and package.
pub fn select_matching_version(
    info: &PyPiPackageInfo,
    package_name: &str,
    constraint: &str,
    allow_prerelease: bool,
) -> (r: Result<VersionInfo, ReleaserError>)
    ensures
        match constraint_reading(constraint@) {
            Err(t) => r matches Err(ReleaserError::ConstraintError(m)) && m@ == t,
            Ok(c) => match chosen(
                release_views(info.releases@),
                info.releases@.len() as int,
                Wish { constraint: Some(c), allow_prerelease },
            ) {
                Some(k) => r matches Ok(found) && found.package_name@ == info.info.name@ && 0 <= k
                    < info.releases@.len() && found.version@ == info.releases@[k].0@ && Some(
                    found.is_prerelease,
                ) == prerelease_flag(python_version(info.releases@[k].0@)),
                None => r matches Err(ReleaserError::PyPiError(m)) && m@
                    == "No versions matching '"@ + constraint@ + "' for "@ + package_name@,
            },
        },
{
    match parse_version_constraint(constraint) {
        Err(e) => Err(e),
        Ok((req, intervals)) => {
            match pick(info, Some(Limits { req: &req, intervals: &intervals }), allow_prerelease) {
                Some(found) => Ok(found),
                None => {
                    let mut m = chars_of("No versions matching '");
                    append_str(&mut m, constraint);
                    append_str(&mut m, "' for ");
                    append_str(&mut m, package_name);
                    Err(ReleaserError::PyPiError(string_of(&m)))
                },
            }
        },
    }
}

} // verus!
