//! Bringing metadata files up to date with a release: which fields get
//! which value, and for YAML the rewriting of the text itself.

use crate::buildout::next_line;
use crate::config::{lowercase, string_views, to_lowercase, MetadataFileConfig};
use crate::error::ReleaserError;
use crate::python::{pieces, split};
use crate::text::{
    append_chars, append_str, chars_of, find_char, has_at, index_of, is_text, matches_at,
    scan_spaces, slice_of, spaces_end, string_of, views,
};
use vstd::prelude::*;

verus! {

/// Updates metadata files.
pub struct MetadataUpdater;

/// The formats of metadata files.
#[derive(Debug, Clone, Copy, PartialEq, Eq, Structural)]
pub enum MetadataKind {
    Yaml,
    Json,
    Toml,
}

/// How the value of a YAML field is written.
#[derive(Debug, Clone, Copy, PartialEq, Eq, Structural)]
pub enum Quoting {
    Double,
    Single,
    Bare,
}

/// The format that a name in lower case stands for: `yaml` and `yml`,
/// `json`, `toml`; no other name is known.
pub open spec fn kind_named(name: Seq<char>) -> Option<MetadataKind> {
    if name == "yaml"@ || name == "yml"@ {
        Some(MetadataKind::Yaml)
    } else if name == "json"@ {
        Some(MetadataKind::Json)
    } else if name == "toml"@ {
        Some(MetadataKind::Toml)
    } else {
        None
    }
}

/// The format that a name in lower case stands for.
pub fn kind_from_name(name: &str) -> (r: Option<MetadataKind>)
    ensures
        r == kind_named(name@),
{
    let c = chars_of(name);
    if is_text(&c, "yaml") || is_text(&c, "yml") {
        Some(MetadataKind::Yaml)
    } else if is_text(&c, "json") {
        Some(MetadataKind::Json)
    } else if is_text(&c, "toml") {
        Some(MetadataKind::Toml)
    } else {
        None
    }
}

/// The part of the text that holds the value of `field`, for the field that
/// begins in the line at `i`: white space, the field's name, a colon and
/// white space stand before the value. A value in quotes runs from behind
/// the opening quote to the next quote of the same kind; a bare value does
/// not begin with `#` and runs to the end of its line.
pub open spec fn value_range(s: Seq<char>, i: int, field: Seq<char>, quoting: Quoting) -> Option<
    (int, int),
> {
    let a = spaces_end(s, i);
    let b = spaces_end(s, a + field.len() + 1);
    if !has_at(s, a, field) || a + field.len() >= s.len() || s[a + field.len()] != ':' || b
        >= s.len() {
        None
    } else {
        match quoting {
            Quoting::Double => if s[b] == '"' && index_of(s, '"', b + 1) < s.len() {
                Some((b + 1, index_of(s, '"', b + 1)))
            } else {
                None
            },
            Quoting::Single => if s[b] == '\'' && index_of(s, '\'', b + 1) < s.len() {
                Some((b + 1, index_of(s, '\'', b + 1)))
            } else {
                None
            },
            Quoting::Bare => if s[b] != '#' {
                Some((b, index_of(s, '\n', b)))
            } else {
                None
            },
        }
    }
}

/// The part of the text that holds the first value of `field` written with
/// the given quoting, looked for line by line from the line at `i` on.
pub open spec fn first_value(s: Seq<char>, i: int, field: Seq<char>, quoting: Quoting) -> Option<
    (int, int),
>
    decreases s.len() - i,
{
    if i < 0 || i > s.len() {
        None
    } else if value_range(s, i, field, quoting) is Some {
        value_range(s, i, field, quoting)
    } else {
        match next_line(s, i) {
            Some(n) => first_value(s, n, field, quoting),
            None => None,
        }
    }
}

/// The part of the text that an update of `field` rewrites: the first value
/// in double quotes; where there is none, the first in single quotes; where
/// there is none either, the first bare value.
pub open spec fn field_range(s: Seq<char>, field: Seq<char>) -> Option<(int, int)> {
    if first_value(s, 0, field, Quoting::Double) is Some {
        first_value(s, 0, field, Quoting::Double)
    } else if first_value(s, 0, field, Quoting::Single) is Some {
        first_value(s, 0, field, Quoting::Single)
    } else {
        first_value(s, 0, field, Quoting::Bare)
    }
}

/// The text with `value` as the value of `field`; the text as it is where
/// the field does not occur.
pub open spec fn with_field(s: Seq<char>, field: Seq<char>, value: Seq<char>) -> Seq<char> {
    match field_range(s, field) {
        Some((from, to)) => if 0 <= from <= to <= s.len() {
            s.subrange(0, from) + value + s.subrange(to, s.len() as int)
        } else {
            s
        },
        None => s,
    }
}

/// The text with `value` as the value of each of the first `n` fields, one
/// after the other.
pub open spec fn with_fields(s: Seq<char>, fields: Seq<Seq<char>>, value: Seq<char>, n: int) -> Seq<
    char,
>
    decreases n,
{
    if n <= 0 || n > fields.len() {
        s
    } else {
        with_field(with_fields(s, fields, value, n - 1), fields[n - 1], value)
    }
}

/// A YAML text brought up to date: the version in every version field, then
/// the date in every date field.
pub open spec fn yaml_updated(
    s: Seq<char>,
    version_fields: Seq<Seq<char>>,
    date_fields: Seq<Seq<char>>,
    version: Seq<char>,
    date: Seq<char>,
) -> Seq<char> {
    with_fields(
        with_fields(s, version_fields, version, version_fields.len() as int),
        date_fields,
        date,
        date_fields.len() as int,
    )
}

/// What a scanned range stands for.
pub open spec fn range_view(r: Option<(usize, usize)>) -> Option<(int, int)> {
    match r {
        Some(p) => Some((p.0 as int, p.1 as int)),
        None => None,
    }
}

fn find_value_range(v: &Vec<char>, i: usize, field: &Vec<char>, quoting: Quoting) -> (r: Option<
    (usize, usize),
>)
    requires
        i <= v.len(),
    ensures
        range_view(r) == value_range(v@, i as int, field@, quoting),
        r matches Some(p) ==> p.0 <= p.1 <= v.len(),
{
    let a = scan_spaces(v, i);
    if !matches_at(v, a, field) {
        return None;
    }
    let colon = a + field.len();
    if colon >= v.len() || v[colon] != ':' {
        return None;
    }
    let b = scan_spaces(v, colon + 1);
    if b >= v.len() {
        return None;
    }
    match quoting {
        Quoting::Double => {
            if v[b] == '"' {
                let c = find_char(v, '"', b + 1);
                if c < v.len() {
                    return Some((b + 1, c));
                }
            }
            None
        },
        Quoting::Single => {
            if v[b] == '\'' {
                let c = find_char(v, '\'', b + 1);
                if c < v.len() {
                    return Some((b + 1, c));
                }
            }
            None
        },
        Quoting::Bare => {
            if v[b] != '#' {
                Some((b, find_char(v, '\n', b)))
            } else {
                None
            }
        },
    }
}

fn find_first_value(v: &Vec<char>, field: &Vec<char>, quoting: Quoting) -> (r: Option<
    (usize, usize),
>)
    ensures
        range_view(r) == first_value(v@, 0, field@, quoting),
        r matches Some(p) ==> p.0 <= p.1 <= v.len(),
{
    let mut i: usize = 0;
    loop
        invariant
            i <= v.len(),
            first_value(v@, 0, field@, quoting) == first_value(v@, i as int, field@, quoting),
        decreases v.len() - i,
    {
        let here = find_value_range(v, i, field, quoting);
        if here.is_some() {
            return here;
        }
        let e = find_char(v, '\n', i);
        if e < v.len() {
            i = e + 1;
        } else {
            return None;
        }
    }
}

fn update_field_chars(v: &Vec<char>, field: &Vec<char>, value: &Vec<char>) -> (r: Vec<char>)
    ensures
        r@ == with_field(v@, field@, value@),
{
    let mut found = find_first_value(v, field, Quoting::Double);
    if found.is_none() {
        found = find_first_value(v, field, Quoting::Single);
    }
    if found.is_none() {
        found = find_first_value(v, field, Quoting::Bare);
    }
    match found {
        Some((from, to)) => {
            let mut out = slice_of(v, 0, from);
            append_chars(&mut out, value);
            let rest = slice_of(v, to, v.len());
            append_chars(&mut out, &rest);
            out
        },
        None => {
            let out = slice_of(v, 0, v.len());
            out
        },
    }
}

fn update_fields(v: Vec<char>, fields: &Vec<String>, value: &Vec<char>) -> (r: Vec<char>)
    ensures
        r@ == with_fields(v@, string_views(fields@), value@, fields@.len() as int),
{
    let ghost start = v@;
    let ghost f = string_views(fields@);
    let mut text = v;
    let mut i: usize = 0;
    while i < fields.len()
        invariant
            i <= fields.len(),
            f == string_views(fields@),
            text@ == with_fields(start, f, value@, i as int),
        decreases fields.len() - i,
    {
        let field = chars_of(fields[i].as_str());
        text = update_field_chars(&text, &field, value);
        i += 1;
    }
    text
}

/// A field of a structured file with the value that it gets: the path to
/// the field, outermost name first, and the value.
pub type Assignment = (Seq<Seq<char>>, Seq<char>);

/// What the fields get: each field is a path with dots between its names.
pub open spec fn assignments_of(fields: Seq<Seq<char>>, value: Seq<char>) -> Seq<Assignment> {
    fields.map_values(|f: Seq<char>| (pieces(f, '.'), value))
}

/// What the assignments stand for.
pub open spec fn assignment_views(s: Seq<(Vec<String>, String)>) -> Seq<Assignment> {
    s.map_values(|a: (Vec<String>, String)| (string_views(a.0@), a.1@))
}

/// What an update of a metadata file comes to.
pub enum MetadataUpdate {
    /// The new text of the file.
    Text(String),
    /// The assignments to make in a structured file of the given format,
    /// in this order.
    Fields(MetadataKind, Vec<(Vec<String>, String)>),
}

fn strings_of(parts: &Vec<Vec<char>>) -> (r: Vec<String>)
    ensures
        string_views(r@) == views(parts@),
{
    let mut r: Vec<String> = Vec::new();
    let mut i: usize = 0;
    while i < parts.len()
        invariant
            i <= parts.len(),
            string_views(r@) == views(parts@).take(i as int),
        decreases parts.len() - i,
    {
        let t = string_of(&parts[i]);
        proof {
            assert(string_views(r@.push(t)) =~= string_views(r@).push(t@));
        }
        r.push(t);
        i += 1;
    }
    r
}

fn push_assignments(out: &mut Vec<(Vec<String>, String)>, fields: &Vec<String>, value: &str)
    ensures
        assignment_views(final(out)@) == assignment_views(old(out)@) + assignments_of(
            string_views(fields@),
            value@,
        ),
{
    let ghost want = assignments_of(string_views(fields@), value@);
    let mut i: usize = 0;
    while i < fields.len()
        invariant
            i <= fields.len(),
            want == assignments_of(string_views(fields@), value@),
            assignment_views(out@) == assignment_views(old(out)@) + want.take(i as int),
        decreases fields.len() - i,
    {
        let c = chars_of(fields[i].as_str());
        let parts = split(&c, '.');
        let path = strings_of(&parts);
        let pair = (path, value.to_owned());
        proof {
            assert(assignment_views(out@.push(pair)) =~= assignment_views(out@).push(
                (string_views(pair.0@), pair.1@),
            ));
        }
        out.push(pair);
        i += 1;
    }
}

/// What the update of a file of a known format comes to: for YAML the text
/// brought up to date; for JSON and TOML the assignments to make, the
/// version fields first, then the date fields.
pub open spec fn update_of(
    kind: MetadataKind,
    config: MetadataFileConfig,
    content: Seq<char>,
    version: Seq<char>,
    date: Seq<char>,
) -> (Option<Seq<char>>, Seq<Assignment>) {
    match kind {
        MetadataKind::Yaml => (
            Some(
                yaml_updated(
                    content,
                    string_views(config.version_fields@),
                    string_views(config.date_fields@),
                    version,
                    date,
                ),
            ),
            Seq::empty(),
        ),
        _ => (
            None,
            assignments_of(string_views(config.version_fields@), version) + assignments_of(
                string_views(config.date_fields@),
                date,
            ),
        ),
    }
}

/// What an update stands for: the new text, or the assignments to make.
pub open spec fn update_view(u: MetadataUpdate) -> (Option<Seq<char>>, Seq<Assignment>) {
    match u {
        MetadataUpdate::Text(t) => (Some(t@), Seq::empty()),
        MetadataUpdate::Fields(_, a) => (None, assignment_views(a@)),
    }
}

impl MetadataUpdater {
    /// The text with `value` as the value of the YAML field `field`.
    pub fn update_yaml_field(content: &str, field: &str, value: &str) -> (r: String)
        ensures
            r@ == with_field(content@, field@, value@),
    {
        let c = chars_of(content);
        let f = chars_of(field);
        let v = chars_of(value);
        let out = update_field_chars(&c, &f, &v);
        string_of(&out)
    }

    /// A YAML text brought up to date with a release.
    pub fn update_yaml(config: &MetadataFileConfig, content: &str, version: &str, date: &str) -> (r:
        String)
        ensures
            r@ == yaml_updated(
                content@,
                string_views(config.version_fields@),
                string_views(config.date_fields@),
                version@,
                date@,
            ),
    {
        let c = chars_of(content);
        let v = chars_of(version);
        let d = chars_of(date);
        let a = update_fields(c, &config.version_fields, &v);
        let b = update_fields(a, &config.date_fields, &d);
        string_of(&b)
    }

    /// What the update of a file of the given format comes to.
    pub fn update_as(
        kind: MetadataKind,
        config: &MetadataFileConfig,
        content: &str,
        version: &str,
        date: &str,
    ) -> (r: MetadataUpdate)
        ensures
            update_view(r) == update_of(kind, *config, content@, version@, date@),
            r matches MetadataUpdate::Fields(k, _) ==> k == kind,
    {
        match kind {
            MetadataKind::Yaml => MetadataUpdate::Text(
                MetadataUpdater::update_yaml(config, content, version, date),
            ),
            _ => {
                let mut all: Vec<(Vec<String>, String)> = Vec::new();
                push_assignments(&mut all, &config.version_fields, version);
                push_assignments(&mut all, &config.date_fields, date);
                MetadataUpdate::Fields(kind, all)
            },
        }
    }

    /// What the update of a metadata file comes to, by the format that its
    /// configuration names, read without regard to case. A format that is
    /// not known is a failure that names it.
    pub fn update_file(config: &MetadataFileConfig, content: &str, version: &str, date: &str) -> (r:
        Result<MetadataUpdate, ReleaserError>)
        ensures
            match kind_named(lowercase(config.format@)) {
                Some(kind) => r matches Ok(u) && update_view(u) == update_of(
                    kind,
                    *config,
                    content@,
                    version@,
                    date@,
                ),
                None => r matches Err(ReleaserError::ConfigError(m)) && m@
                    == "Unsupported metadata format: "@ + config.format@,
            },
    {
        let name = to_lowercase(config.format.as_str());
        match kind_from_name(name.as_str()) {
            Some(kind) => Ok(MetadataUpdater::update_as(kind, config, content, version, date)),
            None => {
                let mut m = chars_of("Unsupported metadata format: ");
                append_str(&mut m, config.format.as_str());
                Err(ReleaserError::ConfigError(string_of(&m)))
            },
        }
    }
}

} // verus!
