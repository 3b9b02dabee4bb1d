//! Range constraints on versions: a conjunction of comparisons together with
//! the half-open intervals that a negated wildcard forbids.

use crate::error::ReleaserError;
use crate::number::{decimal_value, parse_decimal};
use crate::python::{
    parse_python_version, pieces, python_version, release_parts, scan_release, split,
};
use crate::text::{
    append_chars, append_str, chars_of, contains, contains_text, digits_end, has_at,
    lemma_digits_end_bounds, listed, matches_at, scan_digits, scan_spaces, slice_of, spaces_end,
    string_of, trim, trimmed, views,
};
use crate::version::{
    at_most, below, release, version_order, version_text, Order, Version, VersionView,
};
use vstd::prelude::*;

verus! {

/// How a comparator relates a candidate to its version.
#[derive(Debug, Clone, Copy, PartialEq, Eq, Structural)]
pub enum Op {
    Exact,
    Greater,
    GreaterEq,
    Less,
    LessEq,
    NotEqual,
}

/// One comparison: an operator and the version it compares with.
#[derive(Debug, Clone)]
pub struct Comparator {
    pub op: Op,
    pub version: Version,
}

/// What a comparator stands for.
pub struct ComparatorView {
    pub op: Op,
    pub version: VersionView,
}

impl View for Comparator {
    type V = ComparatorView;

    open spec fn view(&self) -> ComparatorView {
        ComparatorView { op: self.op, version: self.version@ }
    }
}

/// A conjunction of comparators. Without comparators it holds of every
/// version.
#[derive(Debug, Clone)]
pub struct VersionReq {
    pub comparators: Vec<Comparator>,
}

/// What the comparators stand for.
pub open spec fn comparator_views(s: Seq<Comparator>) -> Seq<ComparatorView> {
    s.map_values(|c: Comparator| c@)
}

impl View for VersionReq {
    type V = Seq<ComparatorView>;

    open spec fn view(&self) -> Seq<ComparatorView> {
        comparator_views(self.comparators@)
    }
}

/// What the intervals stand for.
pub open spec fn interval_views(s: Seq<(Version, Version)>) -> Seq<(VersionView, VersionView)> {
    s.map_values(|p: (Version, Version)| (p.0@, p.1@))
}

/// Whether the comparator holds of the candidate `v`.
pub open spec fn holds(c: ComparatorView, v: VersionView) -> bool {
    match c.op {
        Op::Exact => version_order(v, c.version) == Order::Equal,
        Op::Greater => version_order(v, c.version) == Order::Greater,
        Op::GreaterEq => version_order(v, c.version) != Order::Less,
        Op::Less => version_order(v, c.version) == Order::Less,
        Op::LessEq => version_order(v, c.version) != Order::Greater,
        Op::NotEqual => version_order(v, c.version) != Order::Equal,
    }
}

/// Whether every comparator holds of `v`.
pub open spec fn satisfies(req: Seq<ComparatorView>, v: VersionView) -> bool {
    forall|i: int| 0 <= i < req.len() ==> holds(#[trigger] req[i], v)
}

/// Whether `v` lies in the interval from `lower`, included, to `upper`,
/// excluded.
pub open spec fn within(lower: VersionView, upper: VersionView, v: VersionView) -> bool {
    at_most(lower, v) && below(v, upper)
}

/// Whether `v` lies in one of the intervals.
pub open spec fn excluded(intervals: Seq<(VersionView, VersionView)>, v: VersionView) -> bool {
    exists|i: int| 0 <= i < intervals.len() && within(#[trigger] intervals[i].0, intervals[i].1, v)
}

/// Whether a constraint accepts `v`: every comparator holds and no interval
/// holds it.
pub open spec fn accepts(
    req: Seq<ComparatorView>,
    intervals: Seq<(VersionView, VersionView)>,
    v: VersionView,
) -> bool {
    satisfies(req, v) && !excluded(intervals, v)
}

impl Comparator {
    /// Whether the comparator holds of `v`.
    pub fn matches(&self, v: &Version) -> (r: bool)
        ensures
            r == holds(self@, v@),
    {
        let o = v.compare(&self.version);
        match self.op {
            Op::Exact => match o {
                Order::Equal => true,
                _ => false,
            },
            Op::Greater => match o {
                Order::Greater => true,
                _ => false,
            },
            Op::GreaterEq => match o {
                Order::Less => false,
                _ => true,
            },
            Op::Less => match o {
                Order::Less => true,
                _ => false,
            },
            Op::LessEq => match o {
                Order::Greater => false,
                _ => true,
            },
            Op::NotEqual => match o {
                Order::Equal => false,
                _ => true,
            },
        }
    }
}

impl VersionReq {
    /// Whether every comparator holds of `v`.
    pub fn matches(&self, v: &Version) -> (r: bool)
        ensures
            r == satisfies(self@, v@),
    {
        let mut i: usize = 0;
        while i < self.comparators.len()
            invariant
                i <= self.comparators.len(),
                forall|k: int| 0 <= k < i ==> holds(#[trigger] self@[k], v@),
            decreases self.comparators.len() - i,
        {
            if !self.comparators[i].matches(v) {
                assert(!holds(self@[i as int], v@));
                return false;
            }
            i += 1;
        }
        true
    }
}

/// Whether `v` lies in one of the intervals.
pub fn is_excluded(intervals: &Vec<(Version, Version)>, v: &Version) -> (r: bool)
    ensures
        r == excluded(interval_views(intervals@), v@),
{
    let ghost iv = interval_views(intervals@);
    let mut i: usize = 0;
    while i < intervals.len()
        invariant
            i <= intervals.len(),
            iv == interval_views(intervals@),
            forall|k: int| 0 <= k < i ==> !within(#[trigger] iv[k].0, iv[k].1, v@),
        decreases intervals.len() - i,
    {
        let lower_ok = match intervals[i].0.compare(v) {
            Order::Greater => false,
            _ => true,
        };
        let upper_ok = match v.compare(&intervals[i].1) {
            Order::Less => true,
            _ => false,
        };
        if lower_ok && upper_ok {
            assert(within(iv[i as int].0, iv[i as int].1, v@));
            return true;
        }
        i += 1;
    }
    false
}

/// Whether the constraint made of `req` and `intervals` accepts `v`.
pub fn constraint_matches(req: &VersionReq, intervals: &Vec<(Version, Version)>, v: &Version) -> (r:
    bool)
    ensures
        r == accepts(req@, interval_views(intervals@), v@),
{
    req.matches(v) && !is_excluded(intervals, v)
}


/// What a constraint text stands for.
pub struct ConstraintView {
    pub comparators: Seq<ComparatorView>,
    pub intervals: Seq<(VersionView, VersionView)>,
}

/// The reading of a constraint text: the constraint, or the text that it
/// failed on.
pub type Reading = Result<ConstraintView, Seq<char>>;

/// The constraint of both `a` and `b`.
pub open spec fn both(a: ConstraintView, b: ConstraintView) -> ConstraintView {
    ConstraintView {
        comparators: a.comparators + b.comparators,
        intervals: a.intervals + b.intervals,
    }
}

/// The constraint that every version meets.
pub open spec fn anything() -> ConstraintView {
    ConstraintView { comparators: Seq::empty(), intervals: Seq::empty() }
}

/// The constraint of one comparator.
pub open spec fn single(op: Op, version: VersionView) -> ConstraintView {
    ConstraintView {
        comparators: seq![ComparatorView { op, version }],
        intervals: Seq::empty(),
    }
}

/// The constraint of the versions from `lower`, included, to `upper`,
/// excluded.
pub open spec fn span(lower: VersionView, upper: VersionView) -> ConstraintView {
    ConstraintView {
        comparators: seq![
            ComparatorView { op: Op::GreaterEq, version: lower },
            ComparatorView { op: Op::Less, version: upper },
        ],
        intervals: Seq::empty(),
    }
}

/// The constraint of the versions outside the interval from `lower`,
/// included, to `upper`, excluded.
pub open spec fn outside(lower: VersionView, upper: VersionView) -> ConstraintView {
    ConstraintView { comparators: Seq::empty(), intervals: seq![(lower, upper)] }
}

/// `written` read at the start of `s` as the operator `op`, with its length.
pub open spec fn op_here(s: Seq<char>, written: Seq<char>, op: Op) -> Option<(Op, int)> {
    if has_at(s, 0, written) {
        Some((op, written.len() as int))
    } else {
        None
    }
}

/// The first of two readings that succeeds.
pub open spec fn or_op(a: Option<(Op, int)>, b: Option<(Op, int)>) -> Option<(Op, int)> {
    if a is Some {
        a
    } else {
        b
    }
}

/// The operator at the start of a constraint part, with its length: `===`,
/// `==` and `=` are exact equality; of two spellings that both fit, the
/// longer is read. A part without operator asks for exact equality.
pub open spec fn operator_of(s: Seq<char>) -> (Op, int) {
    match or_op(
        op_here(s, "==="@, Op::Exact),
        or_op(
            op_here(s, "=="@, Op::Exact),
            or_op(
                op_here(s, "<="@, Op::LessEq),
                or_op(
                    op_here(s, ">="@, Op::GreaterEq),
                    or_op(
                        op_here(s, "!="@, Op::NotEqual),
                        or_op(
                            op_here(s, "<"@, Op::Less),
                            or_op(op_here(s, ">"@, Op::Greater), op_here(s, "="@, Op::Exact)),
                        ),
                    ),
                ),
            ),
        ),
    ) {
        Some(r) => r,
        None => (Op::Exact, 0),
    }
}

/// The reading of a part that is an operator and a version.
pub open spec fn comparison_reading(part: Seq<char>) -> Reading {
    let (op, n) = operator_of(part);
    let text = part.subrange(spaces_end(part, n), part.len() as int);
    match python_version(text) {
        Some(v) => Ok(single(op, v)),
        None => Err(part),
    }
}

/// The shape of a wildcard part: `==` or `!=`, white space, the digits of
/// the major component, optionally a dot and the digits of the minor
/// component, and `.*` at the end.
pub struct Wildcard {
    pub negated: bool,
    pub major: Seq<char>,
    pub minor: Option<Seq<char>>,
}

/// The wildcard that a part is, if it is one.
pub open spec fn wildcard_of(part: Seq<char>) -> Option<Wildcard> {
    let j = spaces_end(part, 2);
    let d1 = digits_end(part, j);
    let d2 = digits_end(part, d1 + 1);
    if !(has_at(part, 0, "=="@) || has_at(part, 0, "!="@)) || d1 <= j {
        None
    } else if has_at(part, d1, ".*"@) && d1 + 2 == part.len() {
        Some(Wildcard { negated: has_at(part, 0, "!="@), major: part.subrange(j, d1), minor: None })
    } else if d1 < part.len() && part[d1] == '.' && d2 > d1 + 1 && has_at(part, d2, ".*"@) && d2
        + 2 == part.len() {
        Some(
            Wildcard {
                negated: has_at(part, 0, "!="@),
                major: part.subrange(j, d1),
                minor: Some(part.subrange(d1 + 1, d2)),
            },
        )
    } else {
        None
    }
}

/// The interval that a wildcard stands for: all of one minor line where the
/// minor component is given, all of one major line otherwise. None where a
/// bound does not fit in 64 bits.
pub open spec fn wildcard_interval(w: Wildcard) -> Option<(VersionView, VersionView)> {
    let major = decimal_value(w.major);
    match w.minor {
        Some(m) => if major <= u64::MAX && decimal_value(m) < u64::MAX {
            Some((release(major, decimal_value(m), 0), release(major, decimal_value(m) + 1, 0)))
        } else {
            None
        },
        None => if major < u64::MAX {
            Some((release(major, 0, 0), release(major + 1, 0, 0)))
        } else {
            None
        },
    }
}

/// The reading of a wildcard part: with `==` the versions of the interval,
/// with `!=` every version outside it.
pub open spec fn wildcard_reading(part: Seq<char>, w: Wildcard) -> Reading {
    match wildcard_interval(w) {
        Some((lower, upper)) => if w.negated {
            Ok(outside(lower, upper))
        } else {
            Ok(span(lower, upper))
        },
        None => Err(part),
    }
}

/// The reading of one part of a comma-separated constraint.
pub open spec fn part_reading(raw: Seq<char>) -> Reading {
    let part = trimmed(raw);
    if part.len() == 0 {
        Err(part)
    } else {
        match wildcard_of(part) {
            Some(w) => wildcard_reading(part, w),
            None => comparison_reading(part),
        }
    }
}

/// The reading of the parts from `i` on: the constraint of all of them, or
/// the failure of the first that fails.
pub open spec fn parts_reading(parts: Seq<Seq<char>>, i: int) -> Reading
    decreases parts.len() - i,
{
    if i < 0 || i >= parts.len() {
        Ok(anything())
    } else {
        match part_reading(parts[i]) {
            Err(e) => Err(e),
            Ok(head) => match parts_reading(parts, i + 1) {
                Err(e) => Err(e),
                Ok(tail) => Ok(both(head, tail)),
            },
        }
    }
}

/// The reading of a compatible-release constraint, whose version text is
/// `text`: from the version up to the next major line where the text wrote
/// at most two release components, up to the next minor line where it wrote
/// more.
pub open spec fn compatible_reading(text: Seq<char>) -> Reading {
    match python_version(text) {
        None => Err(text),
        Some(v) => if release_parts(text, 0).len() <= 2 {
            if v.major < u64::MAX {
                Ok(span(v, release(v.major + 1, 0, 0)))
            } else {
                Err(text)
            }
        } else {
            if v.minor < u64::MAX {
                Ok(span(v, release(v.major, v.minor + 1, 0)))
            } else {
                Err(text)
            }
        },
    }
}

/// The reading of a constraint text. An empty text and a text with `||`
/// fail as a whole; a text that begins with `~=` is one compatible-release
/// constraint; every other text is a list of parts between commas.
pub open spec fn constraint_reading(s: Seq<char>) -> Reading {
    let c = trimmed(s);
    if c.len() == 0 || contains_text(c, "||"@) {
        Err(c)
    } else if has_at(c, 0, "~="@) {
        compatible_reading(trimmed(c.subrange(2, c.len() as int)))
    } else {
        parts_reading(pieces(c, ','), 0)
    }
}

/// A constraint as the functions of this module hand it out.
pub struct Constraint {
    pub req: VersionReq,
    pub intervals: Vec<(Version, Version)>,
}

impl View for Constraint {
    type V = ConstraintView;

    open spec fn view(&self) -> ConstraintView {
        ConstraintView { comparators: self.req@, intervals: interval_views(self.intervals@) }
    }
}

/// The reading that an outcome stands for.
pub open spec fn outcome(r: Result<Constraint, ReleaserError>) -> Option<Reading> {
    match r {
        Ok(c) => Some(Ok(c@)),
        Err(ReleaserError::ConstraintError(t)) => Some(Err(t@)),
        Err(_) => None,
    }
}

fn failure(text: &Vec<char>) -> (r: Result<Constraint, ReleaserError>)
    ensures
        outcome(r) == Some(Err::<ConstraintView, Seq<char>>(text@)),
{
    Err(ReleaserError::ConstraintError(string_of(text)))
}

fn one_comparator(op: Op, version: Version) -> (r: Constraint)
    ensures
        r@ == single(op, version@),
{
    let mut comparators: Vec<Comparator> = Vec::new();
    comparators.push(Comparator { op, version });
    let r = Constraint { req: VersionReq { comparators }, intervals: Vec::new() };
    assert(r@.comparators =~= single(op, version@).comparators);
    assert(r@.intervals =~= single(op, version@).intervals);
    r
}

fn two_comparators(lower: Version, upper: Version) -> (r: Constraint)
    ensures
        r@ == span(lower@, upper@),
{
    let mut comparators: Vec<Comparator> = Vec::new();
    comparators.push(Comparator { op: Op::GreaterEq, version: lower });
    comparators.push(Comparator { op: Op::Less, version: upper });
    let r = Constraint { req: VersionReq { comparators }, intervals: Vec::new() };
    assert(r@.comparators =~= span(lower@, upper@).comparators);
    assert(r@.intervals =~= span(lower@, upper@).intervals);
    r
}

fn one_interval(lower: Version, upper: Version) -> (r: Constraint)
    ensures
        r@ == outside(lower@, upper@),
{
    let mut intervals: Vec<(Version, Version)> = Vec::new();
    intervals.push((lower, upper));
    let r = Constraint { req: VersionReq { comparators: Vec::new() }, intervals };
    assert(r@.comparators =~= outside(lower@, upper@).comparators);
    assert(r@.intervals =~= outside(lower@, upper@).intervals);
    r
}

/// What a scanned operator stands for.
pub open spec fn op_view(r: Option<(Op, usize)>) -> Option<(Op, int)> {
    match r {
        Some(p) => Some((p.0, p.1 as int)),
        None => None,
    }
}

fn read_op(v: &Vec<char>, written: &str, op: Op) -> (r: Option<(Op, usize)>)
    ensures
        op_view(r) == op_here(v@, written@, op),
        r matches Some(p) ==> p.1 <= v.len(),
{
    let w = chars_of(written);
    if matches_at(v, 0, &w) {
        Some((op, w.len()))
    } else {
        None
    }
}

fn read_operator(v: &Vec<char>) -> (r: (Op, usize))
    ensures
        (r.0, r.1 as int) == operator_of(v@),
        r.1 <= v.len(),
{
    if let Some(r) = read_op(v, "===", Op::Exact) {
        return r;
    }
    if let Some(r) = read_op(v, "==", Op::Exact) {
        return r;
    }
    if let Some(r) = read_op(v, "<=", Op::LessEq) {
        return r;
    }
    if let Some(r) = read_op(v, ">=", Op::GreaterEq) {
        return r;
    }
    if let Some(r) = read_op(v, "!=", Op::NotEqual) {
        return r;
    }
    if let Some(r) = read_op(v, "<", Op::Less) {
        return r;
    }
    if let Some(r) = read_op(v, ">", Op::Greater) {
        return r;
    }
    if let Some(r) = read_op(v, "=", Op::Exact) {
        return r;
    }
    (Op::Exact, 0)
}

fn read_comparison(part: &Vec<char>) -> (r: Result<Constraint, ReleaserError>)
    ensures
        outcome(r) == Some(comparison_reading(part@)),
{
    let (op, n) = read_operator(part);
    let j = scan_spaces(part, n);
    let text = slice_of(part, j, part.len());
    let written = string_of(&text);
    match parse_python_version(written.as_str()) {
        Some(v) => Ok(one_comparator(op, v)),
        None => failure(part),
    }
}

/// A wildcard as the scanner hands it out.
pub struct WildcardScan {
    pub negated: bool,
    pub major: Vec<char>,
    pub minor: Option<Vec<char>>,
}

impl View for WildcardScan {
    type V = Wildcard;

    open spec fn view(&self) -> Wildcard {
        Wildcard {
            negated: self.negated,
            major: self.major@,
            minor: crate::python::text_view(self.minor),
        }
    }
}

/// What a scanned wildcard stands for.
pub open spec fn wildcard_view(w: Option<WildcardScan>) -> Option<Wildcard> {
    match w {
        Some(w) => Some(w@),
        None => None,
    }
}

fn scan_wildcard(part: &Vec<char>) -> (r: Option<WildcardScan>)
    ensures
        wildcard_view(r) == wildcard_of(part@),
        r matches Some(w) ==> crate::number::all_digits(w.major@) && (w.minor matches Some(m)
            ==> crate::number::all_digits(m@)),
{
    let eq = chars_of("==");
    let ne = chars_of("!=");
    let star = chars_of(".*");
    proof {
        reveal_strlit("==");
        reveal_strlit("!=");
        reveal_strlit(".*");
    }
    let positive = matches_at(part, 0, &eq);
    let negated = matches_at(part, 0, &ne);
    if !(positive || negated) {
        return None;
    }
    let j = scan_spaces(part, 2);
    let d1 = scan_digits(part, j);
    if d1 <= j {
        return None;
    }
    proof {
        lemma_digits_end_bounds(part@, j as int);
    }
    if matches_at(part, d1, &star) && d1 + 2 == part.len() {
        return Some(WildcardScan { negated, major: slice_of(part, j, d1), minor: None });
    }
    if d1 < part.len() && part[d1] == '.' {
        let d2 = scan_digits(part, d1 + 1);
        proof {
            lemma_digits_end_bounds(part@, d1 + 1);
        }
        if d2 > d1 + 1 && matches_at(part, d2, &star) && d2 + 2 == part.len() {
            return Some(
                WildcardScan {
                    negated,
                    major: slice_of(part, j, d1),
                    minor: Some(slice_of(part, d1 + 1, d2)),
                },
            );
        }
    }
    None
}

/// What an interval stands for.
pub open spec fn interval_view(r: Option<(Version, Version)>) -> Option<
    (VersionView, VersionView),
> {
    match r {
        Some(p) => Some((p.0@, p.1@)),
        None => None,
    }
}

fn interval_of(w: &WildcardScan) -> (r: Option<(Version, Version)>)
    requires
        crate::number::all_digits(w.major@),
        w.minor matches Some(m) ==> crate::number::all_digits(m@),
    ensures
        interval_view(r) == wildcard_interval(w@),
{
    assert(w.major@.subrange(0, w.major@.len() as int) =~= w.major@);
    let major = match parse_decimal(&w.major, 0, w.major.len()) {
        Some(n) => n,
        None => {
            return None;
        },
    };
    match &w.minor {
        Some(m) => {
            assert(m@.subrange(0, m@.len() as int) =~= m@);
            match parse_decimal(m, 0, m.len()) {
                Some(minor) => {
                    if minor < u64::MAX {
                        Some(
                            (
                                Version::from_triple(major, minor, 0),
                                Version::from_triple(major, minor + 1, 0),
                            ),
                        )
                    } else {
                        None
                    }
                },
                None => None,
            }
        },
        None => {
            if major < u64::MAX {
                Some((Version::from_triple(major, 0, 0), Version::from_triple(major + 1, 0, 0)))
            } else {
                None
            }
        },
    }
}

/// Reads one part of a comma-separated constraint.
pub fn read_part(raw: &Vec<char>) -> (r: Result<Constraint, ReleaserError>)
    ensures
        outcome(r) == Some(part_reading(raw@)),
{
    let part = trim(raw);
    if part.len() == 0 {
        return failure(&part);
    }
    match scan_wildcard(&part) {
        Some(w) => match interval_of(&w) {
            Some((lower, upper)) => {
                if w.negated {
                    Ok(one_interval(lower, upper))
                } else {
                    Ok(two_comparators(lower, upper))
                }
            },
            None => failure(&part),
        },
        None => read_comparison(&part),
    }
}

/// Reads a compatible-release constraint from its version text.
pub fn read_compatible(text: &Vec<char>) -> (r: Result<Constraint, ReleaserError>)
    ensures
        outcome(r) == Some(compatible_reading(text@)),
{
    let written = string_of(text);
    match parse_python_version(written.as_str()) {
        None => failure(text),
        Some(v) => {
            let (parts, _end) = scan_release(text);
            if parts.len() <= 2 {
                if v.major() < u64::MAX {
                    let upper = Version::from_triple(v.major() + 1, 0, 0);
                    Ok(two_comparators(v, upper))
                } else {
                    failure(text)
                }
            } else {
                if v.minor() < u64::MAX {
                    let upper = Version::from_triple(v.major(), v.minor() + 1, 0);
                    Ok(two_comparators(v, upper))
                } else {
                    failure(text)
                }
            }
        },
    }
}

/// The outcome of reading a list of parts after the constraint `done` of
/// the parts before them.
pub open spec fn after_done(done: ConstraintView, rest: Reading) -> Reading {
    match rest {
        Ok(t) => Ok(both(done, t)),
        Err(e) => Err(e),
    }
}

/// Reads the parts of a comma-separated constraint.
pub fn read_parts(parts: &Vec<Vec<char>>) -> (r: Result<Constraint, ReleaserError>)
    ensures
        outcome(r) == Some(parts_reading(views(parts@), 0)),
{
    let ghost p = views(parts@);
    let mut comparators: Vec<Comparator> = Vec::new();
    let mut intervals: Vec<(Version, Version)> = Vec::new();
    let mut i: usize = 0;
    while i < parts.len()
        invariant
            i <= parts.len(),
            p == views(parts@),
            parts_reading(p, 0) == after_done(
                ConstraintView {
                    comparators: comparator_views(comparators@),
                    intervals: interval_views(intervals@),
                },
                parts_reading(p, i as int),
            ),
        decreases parts.len() - i,
    {
        let ghost done = ConstraintView {
            comparators: comparator_views(comparators@),
            intervals: interval_views(intervals@),
        };
        match read_part(&parts[i]) {
            Err(e) => {
                return Err(e);
            },
            Ok(c) => {
                let Constraint { req, intervals: more } = c;
                let mut cs = req.comparators;
                let mut more = more;
                proof {
                    assert(comparator_views(comparators@ + cs@) =~= comparator_views(comparators@)
                        + comparator_views(cs@));
                    assert(interval_views(intervals@ + more@) =~= interval_views(intervals@)
                        + interval_views(more@));
                    let head = c@;
                    match parts_reading(p, i + 1) {
                        Ok(tail) => {
                            assert(both(done, both(head, tail)).comparators =~= both(
                                both(done, head),
                                tail,
                            ).comparators);
                            assert(both(done, both(head, tail)).intervals =~= both(
                                both(done, head),
                                tail,
                            ).intervals);
                        },
                        Err(_) => {},
                    }
                }
                comparators.append(&mut cs);
                intervals.append(&mut more);
            },
        }
        i += 1;
    }
    let r = Constraint { req: VersionReq { comparators }, intervals };
    Ok(r)
}

/// Reads a constraint from its characters.
pub fn read_constraint(s: &Vec<char>) -> (r: Result<Constraint, ReleaserError>)
    ensures
        outcome(r) == Some(constraint_reading(s@)),
{
    let c = trim(s);
    if c.len() == 0 || contains(&c, "||") {
        return failure(&c);
    }
    let tilde = chars_of("~=");
    proof {
        reveal_strlit("~=");
    }
    if matches_at(&c, 0, &tilde) {
        let rest = slice_of(&c, 2, c.len());
        let text = trim(&rest);
        read_compatible(&text)
    } else {
        let parts = split(&c, ',');
        read_parts(&parts)
    }
}


/// How an operator is written.
pub open spec fn op_text(op: Op) -> Seq<char> {
    match op {
        Op::Exact => "="@,
        Op::Greater => ">"@,
        Op::GreaterEq => ">="@,
        Op::Less => "<"@,
        Op::LessEq => "<="@,
        Op::NotEqual => "!="@,
    }
}

/// How a comparator is written: its operator, then its version.
pub open spec fn comparator_text(c: ComparatorView) -> Seq<char> {
    op_text(c.op) + version_text(c.version)
}

/// How a conjunction of comparators is written: `*` where there is none,
/// else the comparators with a comma and a blank between them.
pub open spec fn req_text(req: Seq<ComparatorView>) -> Seq<char> {
    if req.len() == 0 {
        "*"@
    } else {
        listed(req.map_values(|c: ComparatorView| comparator_text(c)))
    }
}

impl Comparator {
    /// The comparator as it is written.
    pub fn to_chars(&self) -> (r: Vec<char>)
        ensures
            r@ == comparator_text(self@),
    {
        let mut out = chars_of(
            match self.op {
                Op::Exact => "=",
                Op::Greater => ">",
                Op::GreaterEq => ">=",
                Op::Less => "<",
                Op::LessEq => "<=",
                Op::NotEqual => "!=",
            },
        );
        let v = self.version.to_chars();
        append_chars(&mut out, &v);
        out
    }
}

impl VersionReq {
    /// The conjunction as it is written.
    pub fn to_chars(&self) -> (r: Vec<char>)
        ensures
            r@ == req_text(self@),
    {
        if self.comparators.len() == 0 {
            return chars_of("*");
        }
        let ghost texts = self@.map_values(|c: ComparatorView| comparator_text(c));
        let mut out: Vec<char> = Vec::new();
        let mut i: usize = 0;
        while i < self.comparators.len()
            invariant
                i <= self.comparators.len(),
                texts == self@.map_values(|c: ComparatorView| comparator_text(c)),
                out@ == listed(texts.take(i as int)),
            decreases self.comparators.len() - i,
        {
            if i > 0 {
                append_str(&mut out, ", ");
            }
            let t = self.comparators[i].to_chars();
            append_chars(&mut out, &t);
            proof {
                let q = texts.take(i + 1);
                assert(q.drop_last() =~= texts.take(i as int));
            }
            i += 1;
        }
        assert(texts.take(self.comparators.len() as int) =~= texts);
        out
    }

    /// The conjunction as it is written.
    pub fn to_string(&self) -> (r: String)
        ensures
            r@ == req_text(self@),
    {
        let c = self.to_chars();
        string_of(&c)
    }
}

/// Reads a constraint: the comparators that a candidate has to meet and the
/// intervals that it has to stay out of. Where the text is no constraint,
/// the error carries the text that the reading failed on.
pub fn parse_version_constraint(constraint: &str) -> (r: Result<
    (VersionReq, Vec<(Version, Version)>),
    ReleaserError,
>)
    ensures
        match r {
            Ok(p) => constraint_reading(constraint@) == Ok::<ConstraintView, Seq<char>>(
                ConstraintView { comparators: p.0@, intervals: interval_views(p.1@) },
            ),
            Err(ReleaserError::ConstraintError(t)) => constraint_reading(constraint@) == Err::<
                ConstraintView,
                Seq<char>,
            >(t@),
            Err(_) => false,
        },
{
    let c = chars_of(constraint);
    match read_constraint(&c) {
        Ok(found) => {
            let Constraint { req, intervals } = found;
            Ok((req, intervals))
        },
        Err(e) => Err(e),
    }
}

/// Reads one part of a comma-separated constraint and writes its
/// comparators in normal form, beside the intervals that it forbids.
pub fn normalize_constraint_part(part: &str) -> (r: Result<
    (String, Vec<(Version, Version)>),
    ReleaserError,
>)
    ensures
        match r {
            Ok(p) => part_reading(part@) matches Ok(c) && p.0@ == req_text(c.comparators)
                && interval_views(p.1@) == c.intervals,
            Err(ReleaserError::ConstraintError(t)) => part_reading(part@) == Err::<
                ConstraintView,
                Seq<char>,
            >(t@),
            Err(_) => false,
        },
{
    let c = chars_of(part);
    match read_part(&c) {
        Ok(found) => {
            let Constraint { req, intervals } = found;
            Ok((req.to_string(), intervals))
        },
        Err(e) => Err(e),
    }
}

} // verus!
