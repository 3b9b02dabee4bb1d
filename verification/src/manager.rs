//! The names of the bump levels, and finding the level that a name means.

use crate::config::{level_views, VersionBumpType, VersionConfig};
use crate::error::ReleaserError;
use crate::text::{
    append_chars, append_str, chars_of, lemma_views_push, listed, push_listed, same_chars,
    string_of, views,
};
use vstd::prelude::*;

verus! {

/// Reads bump levels from the configuration.
pub struct VersionManager<'a> {
    config: &'a VersionConfig,
}

/// A level: its name and what it raises.
pub type LevelView = (Seq<char>, VersionBumpType);

/// The first position at or after `i` of the level called `name`, or the
/// number of levels where there is none.
pub open spec fn level_position(levels: Seq<LevelView>, name: Seq<char>, i: int) -> int
    decreases levels.len() - i,
{
    if 0 <= i < levels.len() && levels[i].0 != name {
        level_position(levels, name, i + 1)
    } else {
        i
    }
}

/// What the level called `name` raises, if there is such a level.
pub open spec fn level_named(levels: Seq<LevelView>, name: Seq<char>) -> Option<VersionBumpType> {
    if level_position(levels, name, 0) < levels.len() {
        Some(levels[level_position(levels, name, 0)].1)
    } else {
        None
    }
}

/// The names of the levels, each in double quotes.
pub open spec fn quoted_names(levels: Seq<LevelView>) -> Seq<Seq<char>> {
    levels.map_values(|l: LevelView| "\""@ + l.0 + "\""@)
}

/// What is said of a level name that is not known.
pub open spec fn unknown_level(levels: Seq<LevelView>, name: Seq<char>) -> Seq<char> {
    "Unknown version level '"@ + name + "'. Available: ["@ + listed(quoted_names(levels)) + "]"@
}

impl<'a> VersionManager<'a> {
    /// The levels that the manager reads.
    pub closed spec fn levels(&self) -> Seq<LevelView> {
        level_views(self.config.levels@)
    }

    /// A manager of the levels of `config`.
    pub fn new(config: &'a VersionConfig) -> (r: VersionManager<'a>)
        ensures
            r.levels() == level_views(config.levels@),
    {
        VersionManager { config }
    }

    /// What the level called `level` raises. Where no level has that name,
    /// the error names the level and lists the names that are known.
    pub fn get_bump_type(&self, level: &str) -> (r: Result<VersionBumpType, ReleaserError>)
        ensures
            match level_named(self.levels(), level@) {
                Some(t) => r == Ok::<VersionBumpType, ReleaserError>(t),
                None => r matches Err(ReleaserError::VersionError(m)) && m@ == unknown_level(
                    self.levels(),
                    level@,
                ),
            },
    {
        let name = chars_of(level);
        let ghost l = self.levels();
        let mut k: usize = 0;
        while k < self.config.levels.len()
            invariant
                k <= self.config.levels.len(),
                l == level_views(self.config.levels@),
                level_position(l, level@, 0) == level_position(l, level@, k as int),
                name@ == level@,
            decreases self.config.levels.len() - k,
        {
            let own = chars_of(self.config.levels[k].0.as_str());
            if same_chars(&own, &name) {
                return Ok(self.config.levels[k].1);
            }
            k += 1;
        }
        let mut names: Vec<Vec<char>> = Vec::new();
        let mut i: usize = 0;
        while i < self.config.levels.len()
            invariant
                i <= self.config.levels.len(),
                l == level_views(self.config.levels@),
                views(names@) == quoted_names(l).take(i as int),
            decreases self.config.levels.len() - i,
        {
            let mut q = chars_of("\"");
            append_str(&mut q, self.config.levels[i].0.as_str());
            append_str(&mut q, "\"");
            proof {
                lemma_views_push(names@, q);
            }
            names.push(q);
            i += 1;
        }
        assert(quoted_names(l).take(self.config.levels.len() as int) =~= quoted_names(l));
        let mut m = chars_of("Unknown version level '");
        append_chars(&mut m, &name);
        append_str(&mut m, "'. Available: [");
        push_listed(&mut m, &names);
        append_str(&mut m, "]");
        Err(ReleaserError::VersionError(string_of(&m)))
    }

    /// Every level with what it raises, in the order of the configuration.
    pub fn available_levels(&self) -> (r: Vec<(String, VersionBumpType)>)
        ensures
            level_views(r@) == self.levels(),
    {
        let mut r: Vec<(String, VersionBumpType)> = Vec::new();
        let mut i: usize = 0;
        while i < self.config.levels.len()
            invariant
                i <= self.config.levels.len(),
                level_views(r@) == self.levels().take(i as int),
            decreases self.config.levels.len() - i,
        {
            let pair = (self.config.levels[i].0.clone(), self.config.levels[i].1);
            proof {
                assert(level_views(r@.push(pair)) =~= level_views(r@).push((pair.0@, pair.1)));
            }
            r.push(pair);
            i += 1;
        }
        r
    }
}

} // verus!
