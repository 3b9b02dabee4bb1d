//! What holds of the order of versions, of bumps, of constraints, of the
//! sections taken from a changelog, of ranked tags and of the choice of a
//! release, whatever the inputs are.

use crate::changelog::{
    at_heading, at_line, changelog_entries, closed, entries_in, in_window, scan_lines,
    scan_underlined, start, version_numbers, EntryView, Scan, Style,
};
use crate::config::VersionBumpType;
use crate::constraint::{
    accepts, compatible_reading, excluded, holds, outside, part_reading, span, wildcard_interval,
    wildcard_of, within, ConstraintView, Wildcard,
};
use crate::git::{ranked, slot, TagView};
use crate::pypi::{best_of, candidate, candidates, chosen, ReleaseView, Wish};
use crate::python::{component, python_version, release_parts, tolerant_version};
use crate::text::{index_of, lines_of, trimmed};
use crate::version::{
    below, bump_target, bumped, pre_release_order, pre_release_order_from, release, segment_order,
    text_order, text_order_from, version_order, Order, SegmentView, VersionView,
};
use vstd::prelude::*;

verus! {

/// The outcome of comparing the other way round.
pub open spec fn reversed(o: Order) -> Order {
    match o {
        Order::Less => Order::Greater,
        Order::Equal => Order::Equal,
        Order::Greater => Order::Less,
    }
}

/// Whether `x` followed by `y` allows the conclusion `z`: below and then
/// below or equal is below, equal and then anything is that thing, and the
/// same the other way round.
pub open spec fn chains(x: Order, y: Order, z: Order) -> bool {
    match (x, y) {
        (Order::Equal, _) => z == y,
        (_, Order::Equal) => z == x,
        (Order::Less, Order::Less) => z == Order::Less,
        (Order::Greater, Order::Greater) => z == Order::Greater,
        _ => true,
    }
}

/// Comparing two texts the other way round gives the opposite outcome.
pub proof fn lemma_text_order_from_reversed(a: Seq<char>, b: Seq<char>, i: int)
    requires
        0 <= i,
    ensures
        text_order_from(b, a, i) == reversed(text_order_from(a, b, i)),
    decreases a.len() - i,
{
    if i < a.len() && i < b.len() && a[i] == b[i] {
        lemma_text_order_from_reversed(a, b, i + 1);
    }
}

/// Texts that are equal in the order from a position on are as long as
/// each other and agree from that position on.
pub proof fn lemma_text_order_from_equal(a: Seq<char>, b: Seq<char>, i: int)
    requires
        0 <= i <= a.len(),
        i <= b.len(),
        text_order_from(a, b, i) == Order::Equal,
    ensures
        a.len() == b.len(),
        forall|k: int| i <= k < a.len() ==> a[k] == b[k],
    decreases a.len() - i,
{
    if i < a.len() && i < b.len() {
        lemma_text_order_from_equal(a, b, i + 1);
    }
}

/// A text is equal to itself in the order.
pub proof fn lemma_text_order_from_same(a: Seq<char>, i: int)
    requires
        0 <= i,
    ensures
        text_order_from(a, a, i) == Order::Equal,
    decreases a.len() - i,
{
    if i < a.len() {
        lemma_text_order_from_same(a, i + 1);
    }
}

/// The order of texts is transitive.
pub proof fn lemma_text_order_from_chains(a: Seq<char>, b: Seq<char>, c: Seq<char>, i: int)
    requires
        0 <= i,
    ensures
        chains(text_order_from(a, b, i), text_order_from(b, c, i), text_order_from(a, c, i)),
    decreases a.len() + b.len() + c.len() - i,
{
    if i < a.len() && i < b.len() && i < c.len() {
        if a[i] == b[i] && b[i] == c[i] {
            lemma_text_order_from_chains(a, b, c, i + 1);
        }
    }
}

/// Two texts are equal in the order exactly where they are the same text.
pub proof fn lemma_text_order_equal(a: Seq<char>, b: Seq<char>)
    ensures
        text_order(a, b) == Order::Equal <==> a == b,
{
    if text_order(a, b) == Order::Equal {
        lemma_text_order_from_equal(a, b, 0);
        assert(a =~= b);
    }
    if a == b {
        lemma_text_order_from_same(a, 0);
    }
}

/// Comparing two segments the other way round gives the opposite outcome.
pub proof fn lemma_segment_order_reversed(a: SegmentView, b: SegmentView)
    ensures
        segment_order(b, a) == reversed(segment_order(a, b)),
{
    match (a, b) {
        (SegmentView::Label(x), SegmentView::Label(y)) => {
            lemma_text_order_from_reversed(x, y, 0);
        },
        _ => {},
    }
}

/// Two segments are equal in the order exactly where they are the same.
pub proof fn lemma_segment_order_equal(a: SegmentView, b: SegmentView)
    ensures
        segment_order(a, b) == Order::Equal <==> a == b,
{
    match (a, b) {
        (SegmentView::Label(x), SegmentView::Label(y)) => {
            lemma_text_order_equal(x, y);
        },
        _ => {},
    }
}

/// The order of segments is transitive.
pub proof fn lemma_segment_order_chains(a: SegmentView, b: SegmentView, c: SegmentView)
    ensures
        chains(segment_order(a, b), segment_order(b, c), segment_order(a, c)),
{
    match (a, b, c) {
        (SegmentView::Label(x), SegmentView::Label(y), SegmentView::Label(z)) => {
            lemma_text_order_from_chains(x, y, z, 0);
        },
        _ => {},
    }
}

/// Comparing two pre-release sequences the other way round gives the
/// opposite outcome.
pub proof fn lemma_pre_release_order_from_reversed(
    a: Seq<SegmentView>,
    b: Seq<SegmentView>,
    i: int,
)
    requires
        0 <= i,
    ensures
        pre_release_order_from(b, a, i) == reversed(pre_release_order_from(a, b, i)),
    decreases a.len() - i,
{
    if i < a.len() && i < b.len() {
        lemma_segment_order_reversed(a[i], b[i]);
        if segment_order(a[i], b[i]) == Order::Equal {
            lemma_pre_release_order_from_reversed(a, b, i + 1);
        }
    }
}

/// Pre-release sequences that are equal in the order from a position on are
/// as long as each other and agree from that position on.
pub proof fn lemma_pre_release_order_from_equal(a: Seq<SegmentView>, b: Seq<SegmentView>, i: int)
    requires
        0 <= i <= a.len(),
        i <= b.len(),
        pre_release_order_from(a, b, i) == Order::Equal,
    ensures
        a.len() == b.len(),
        forall|k: int| i <= k < a.len() ==> a[k] == b[k],
    decreases a.len() - i,
{
    if i < a.len() && i < b.len() {
        lemma_segment_order_equal(a[i], b[i]);
        lemma_pre_release_order_from_equal(a, b, i + 1);
    }
}

/// A pre-release sequence is equal to itself in the order.
pub proof fn lemma_pre_release_order_from_same(a: Seq<SegmentView>, i: int)
    requires
        0 <= i,
    ensures
        pre_release_order_from(a, a, i) == Order::Equal,
    decreases a.len() - i,
{
    if i < a.len() {
        lemma_segment_order_equal(a[i], a[i]);
        lemma_pre_release_order_from_same(a, i + 1);
    }
}

/// The order of pre-release sequences is transitive.
pub proof fn lemma_pre_release_order_from_chains(
    a: Seq<SegmentView>,
    b: Seq<SegmentView>,
    c: Seq<SegmentView>,
    i: int,
)
    requires
        0 <= i,
    ensures
        chains(
            pre_release_order_from(a, b, i),
            pre_release_order_from(b, c, i),
            pre_release_order_from(a, c, i),
        ),
    decreases a.len() + b.len() + c.len() - i,
{
    if i < a.len() && i < b.len() && i < c.len() {
        lemma_segment_order_chains(a[i], b[i], c[i]);
        if segment_order(a[i], b[i]) == Order::Equal && segment_order(b[i], c[i]) == Order::Equal {
            lemma_pre_release_order_from_chains(a, b, c, i + 1);
        }
    }
}

/// Comparing two versions the other way round gives the opposite outcome.
pub proof fn lemma_order_reversed(a: VersionView, b: VersionView)
    ensures
        version_order(b, a) == reversed(version_order(a, b)),
{
    lemma_pre_release_order_from_reversed(a.pre_release, b.pre_release, 0);
}

/// Two versions are equal in the order exactly where major, minor, patch
/// and the pre-release sequences are equal.
pub proof fn lemma_order_equal(a: VersionView, b: VersionView)
    ensures
        version_order(a, b) == Order::Equal <==> (a.major == b.major && a.minor == b.minor
            && a.patch == b.patch && a.pre_release == b.pre_release),
{
    if version_order(a, b) == Order::Equal {
        lemma_pre_release_order_from_equal(a.pre_release, b.pre_release, 0);
        assert(a.pre_release =~= b.pre_release);
    }
    if a.pre_release == b.pre_release {
        lemma_pre_release_order_from_same(a.pre_release, 0);
    }
}

/// The order of versions is transitive: what is below or equal to a
/// version is below whatever that version is below, and so on.
pub proof fn lemma_order_chains(a: VersionView, b: VersionView, c: VersionView)
    ensures
        chains(version_order(a, b), version_order(b, c), version_order(a, c)),
{
    lemma_pre_release_order_from_chains(a.pre_release, b.pre_release, c.pre_release, 0);
}

/// Build metadata takes no part in the order: two versions compare as they
/// do with any other build metadata.
pub proof fn lemma_order_ignores_build_metadata(
    a: VersionView,
    b: VersionView,
    m: Seq<Seq<char>>,
    n: Seq<Seq<char>>,
)
    ensures
        version_order(
            VersionView { build_metadata: m, ..a },
            VersionView { build_metadata: n, ..b },
        ) == version_order(a, b),
{
}

/// Whether the triple of `a` comes before the triple of `b`: by major, then
/// by minor, then by patch.
pub open spec fn release_before(a: VersionView, b: VersionView) -> bool {
    a.major < b.major || (a.major == b.major && (a.minor < b.minor || (a.minor == b.minor
        && a.patch < b.patch)))
}

/// A version whose release triple comes first is below, whatever the
/// pre-release sequences and the build metadata are.
pub proof fn lemma_release_order(a: VersionView, b: VersionView)
    requires
        release_before(a, b),
    ensures
        below(a, b),
{
}

/// Of two texts that the tolerant grammar reads, the one whose release
/// tuple comes first, by its first three components, reads as the lower
/// version.
pub proof fn lemma_tolerant_release_order(
    a: Seq<char>,
    b: Seq<char>,
    va: VersionView,
    vb: VersionView,
)
    requires
        tolerant_version(a) == Some(va),
        tolerant_version(b) == Some(vb),
        release_before(
            release(
                component(release_parts(a.subrange(0, index_of(a, '+', 0)), 0), 0),
                component(release_parts(a.subrange(0, index_of(a, '+', 0)), 0), 1),
                component(release_parts(a.subrange(0, index_of(a, '+', 0)), 0), 2),
            ),
            release(
                component(release_parts(b.subrange(0, index_of(b, '+', 0)), 0), 0),
                component(release_parts(b.subrange(0, index_of(b, '+', 0)), 0), 1),
                component(release_parts(b.subrange(0, index_of(b, '+', 0)), 0), 2),
            ),
        ),
    ensures
        below(va, vb),
{
}

/// A version with a pre-release sequence is below every version of the
/// same triple that has none.
pub proof fn lemma_pre_release_below_release(a: VersionView, b: VersionView)
    requires
        a.major == b.major,
        a.minor == b.minor,
        a.patch == b.patch,
        a.pre_release.len() > 0,
        b.pre_release.len() == 0,
    ensures
        below(a, b),
{
}

/// A pre-release sequence that goes on where another one ends is the
/// lesser: a development version of a pre-release is below the pre-release.
pub proof fn lemma_longer_pre_release_below(a: Seq<SegmentView>, tail: Seq<SegmentView>)
    requires
        tail.len() > 0,
    ensures
        pre_release_order(a + tail, a) == Order::Less,
{
    lemma_prefix_from(a, tail, 0);
}

proof fn lemma_prefix_from(a: Seq<SegmentView>, tail: Seq<SegmentView>, i: int)
    requires
        tail.len() > 0,
        0 <= i <= a.len(),
    ensures
        pre_release_order_from(a + tail, a, i) == Order::Less,
    decreases a.len() - i,
{
    if i < a.len() {
        lemma_segment_order_equal(a[i], a[i]);
        lemma_prefix_from(a, tail, i + 1);
    }
}

/// A bump leads upwards: the version that follows is above the version
/// that was bumped.
pub proof fn lemma_bump_raises(v: VersionView, kind: VersionBumpType)
    ensures
        below(v, bumped(v, kind)),
{
}

/// A bump clears what is below the component it raises: the result has no
/// pre-release, no build metadata, and zero in every lower component.
pub proof fn lemma_bump_clears(v: VersionView, kind: VersionBumpType)
    ensures
        bumped(v, kind).pre_release.len() == 0,
        bumped(v, kind).build_metadata.len() == 0,
        kind == VersionBumpType::Major ==> bumped(v, kind) == release(v.major + 1, 0, 0),
        kind == VersionBumpType::Minor ==> bumped(v, kind) == release(v.major, v.minor + 1, 0),
        kind == VersionBumpType::Patch ==> bumped(v, kind) == release(
            v.major,
            v.minor,
            v.patch + 1,
        ),
        bump_target(bumped(v, kind), kind) == bump_target(v, kind) + 1,
{
}

/// A version inside one of the intervals of a constraint is rejected,
/// whatever the comparators say.
pub proof fn lemma_excluded_is_rejected(c: ConstraintView, i: int, v: VersionView)
    requires
        0 <= i < c.intervals.len(),
        within(c.intervals[i].0, c.intervals[i].1, v),
    ensures
        !accepts(c.comparators, c.intervals, v),
{
}

/// The constraint of a negated wildcard accepts exactly the versions
/// outside its interval.
pub proof fn lemma_outside(lower: VersionView, upper: VersionView, v: VersionView)
    ensures
        accepts(outside(lower, upper).comparators, outside(lower, upper).intervals, v) <==> !within(
            lower,
            upper,
            v,
        ),
{
    let c = outside(lower, upper);
    if within(lower, upper, v) {
        assert(within(c.intervals[0].0, c.intervals[0].1, v));
    }
}

/// The constraint of a wildcard or of a compatible release accepts exactly
/// the versions from its lower bound, included, to its upper bound,
/// excluded.
pub proof fn lemma_span(lower: VersionView, upper: VersionView, v: VersionView)
    ensures
        accepts(span(lower, upper).comparators, span(lower, upper).intervals, v) <==> within(
            lower,
            upper,
            v,
        ),
{
    let c = span(lower, upper);
    lemma_order_reversed(v, lower);
    if within(lower, upper, v) {
        assert forall|i: int| 0 <= i < c.comparators.len() implies holds(
            #[trigger] c.comparators[i],
            v,
        ) by {
        }
    }
}

/// The versions of one major line: from `major.0.0`, included, to the next
/// major, excluded. Every version with that major component lies in it,
/// except the pre-releases of `major.0.0` itself.
pub proof fn lemma_major_line(major: nat, v: VersionView)
    requires
        v.major == major,
        v.minor > 0 || v.patch > 0 || v.pre_release.len() == 0,
    ensures
        within(release(major, 0, 0), release(major + 1, 0, 0), v),
{
    let lower = release(major, 0, 0);
}

/// A negated wildcard is read as the constraint of every version outside
/// its interval: each version from the lower bound, included, to the upper
/// bound, excluded, is rejected, and every other version is accepted.
pub proof fn lemma_negated_wildcard(
    raw: Seq<char>,
    w: Wildcard,
    lower: VersionView,
    upper: VersionView,
    v: VersionView,
)
    requires
        trimmed(raw).len() > 0,
        wildcard_of(trimmed(raw)) == Some(w),
        w.negated,
        wildcard_interval(w) == Some((lower, upper)),
    ensures
        part_reading(raw) == Ok::<ConstraintView, Seq<char>>(outside(lower, upper)),
        accepts(outside(lower, upper).comparators, outside(lower, upper).intervals, v) <==> !within(
            lower,
            upper,
            v,
        ),
{
    lemma_outside(lower, upper, v);
}

/// A compatible release of a text that wrote at most two release
/// components is read as the span from its version up to the next major
/// line, and accepts exactly the versions of that span.
pub proof fn lemma_compatible_major(text: Seq<char>, base: VersionView, v: VersionView)
    requires
        python_version(text) == Some(base),
        release_parts(text, 0).len() <= 2,
        base.major < u64::MAX,
    ensures
        compatible_reading(text) == Ok::<ConstraintView, Seq<char>>(
            span(base, release(base.major + 1, 0, 0)),
        ),
        accepts(
            span(base, release(base.major + 1, 0, 0)).comparators,
            span(base, release(base.major + 1, 0, 0)).intervals,
            v,
        ) <==> within(base, release(base.major + 1, 0, 0), v),
{
    lemma_span(base, release(base.major + 1, 0, 0), v);
}

/// A compatible release of a text that wrote three release components or
/// more is read as the span from its version up to the next minor line, and
/// accepts exactly the versions of that span.
pub proof fn lemma_compatible_minor(text: Seq<char>, base: VersionView, v: VersionView)
    requires
        python_version(text) == Some(base),
        release_parts(text, 0).len() > 2,
        base.minor < u64::MAX,
    ensures
        compatible_reading(text) == Ok::<ConstraintView, Seq<char>>(
            span(base, release(base.major, base.minor + 1, 0)),
        ),
        accepts(
            span(base, release(base.major, base.minor + 1, 0)).comparators,
            span(base, release(base.major, base.minor + 1, 0)).intervals,
            v,
        ) <==> within(base, release(base.major, base.minor + 1, 0), v),
{
    lemma_span(base, release(base.major, base.minor + 1, 0), v);
}

/// What holds of every section that a pass hands out: its version lies in
/// the window, and it has text.
pub open spec fn is_selected(e: EntryView, old: Seq<u32>, new: Seq<u32>) -> bool {
    in_window(version_numbers(e.version), old, new) && e.content.len() > 0
}

/// What holds of the state of a pass at every line: the sections handed out
/// are selected ones, the open section has its version in the window, and
/// while a section is open its lines are captured.
pub open spec fn is_sound(s: Scan, old: Seq<u32>, new: Seq<u32>) -> bool {
    (forall|k: int| 0 <= k < s.entries.len() ==> is_selected(#[trigger] s.entries[k], old, new))
        && (s.open matches Some(o) ==> in_window(version_numbers(o.version), old, new))
        && (s.open is Some ==> s.capturing)
}

proof fn lemma_scan_lines_sound(
    style: Style,
    lines: Seq<Seq<char>>,
    i: int,
    s: Scan,
    old: Seq<u32>,
    new: Seq<u32>,
)
    requires
        is_sound(s, old, new),
    ensures
        is_sound(scan_lines(style, lines, i, s, old, new), old, new),
    decreases lines.len() - i,
{
    if 0 <= i < lines.len() {
        let h = if style == Style::Markdown {
            crate::changelog::markdown_heading(lines[i])
        } else {
            crate::changelog::plain_heading(lines[i])
        };
        let next = match h {
            Some(h) => at_heading(s, h, old, new),
            None => at_line(s, lines[i]),
        };
        lemma_scan_lines_sound(style, lines, i + 1, next, old, new);
    }
}

proof fn lemma_scan_underlined_sound(
    lines: Seq<Seq<char>>,
    i: int,
    s: Scan,
    old: Seq<u32>,
    new: Seq<u32>,
)
    requires
        is_sound(s, old, new),
    ensures
        is_sound(scan_underlined(lines, i, s, old, new), old, new),
    decreases lines.len() - i,
{
    if 0 <= i < lines.len() {
        if crate::changelog::underlined_heading(lines[i]) is Some && i + 1 < lines.len()
            && crate::changelog::is_underline(lines[i + 1]) {
            lemma_scan_underlined_sound(
                lines,
                i + 2,
                at_heading(s, crate::changelog::underlined_heading(lines[i])->0, old, new),
                old,
                new,
            );
        } else if crate::changelog::is_underline(lines[i]) {
            lemma_scan_underlined_sound(lines, i + 1, s, old, new);
        } else {
            lemma_scan_underlined_sound(lines, i + 1, at_line(s, lines[i]), old, new);
        }
    }
}

/// Every section that a style hands out has its version above `old` and
/// at or below `new`, and has text.
pub proof fn lemma_entries_in_window(style: Style, text: Seq<char>, old: Seq<char>, new: Seq<char>)
    ensures
        forall|k: int|
            0 <= k < entries_in(style, text, old, new).len() ==> is_selected(
                #[trigger] entries_in(style, text, old, new)[k],
                version_numbers(old),
                version_numbers(new),
            ),
{
    let o = version_numbers(old);
    let n = version_numbers(new);
    if style == Style::Underlined {
        lemma_scan_underlined_sound(lines_of(text), 0, start(), o, n);
    } else {
        lemma_scan_lines_sound(style, lines_of(text), 0, start(), o, n);
    }
}

/// Every section that the selection hands out has its version above `old`
/// and at or below `new`, and has text.
pub proof fn lemma_selection_in_window(text: Seq<char>, old: Seq<char>, new: Seq<char>)
    ensures
        forall|k: int|
            0 <= k < changelog_entries(text, old, new).len() ==> is_selected(
                #[trigger] changelog_entries(text, old, new)[k],
                version_numbers(old),
                version_numbers(new),
            ),
{
    lemma_entries_in_window(Style::Markdown, text, old, new);
    lemma_entries_in_window(Style::Underlined, text, old, new);
    lemma_entries_in_window(Style::Plain, text, old, new);
}

/// Whether the tags stand from the highest version to the lowest.
pub open spec fn is_descending(tags: Seq<TagView>) -> bool {
    forall|i: int, j: int|
        0 <= i < j < tags.len() ==> version_order((#[trigger] tags[i]).1, (#[trigger] tags[j]).1)
            != Order::Less
}

proof fn lemma_slot(sorted: Seq<TagView>, v: VersionView, i: int)
    requires
        0 <= i <= sorted.len(),
    ensures
        i <= slot(sorted, v, i) <= sorted.len(),
        forall|k: int|
            i <= k < slot(sorted, v, i) ==> version_order((#[trigger] sorted[k]).1, v)
                != Order::Less,
        slot(sorted, v, i) < sorted.len() ==> version_order(sorted[slot(sorted, v, i)].1, v)
            == Order::Less,
    decreases sorted.len() - i,
{
    if i < sorted.len() && version_order(sorted[i].1, v) != Order::Less {
        lemma_slot(sorted, v, i + 1);
    }
}

/// Ranking puts the tags from the highest version to the lowest and
/// neither drops nor adds a tag.
pub proof fn lemma_ranked(tags: Seq<TagView>)
    ensures
        is_descending(ranked(tags)),
        ranked(tags).to_multiset() == tags.to_multiset(),
        ranked(tags).len() == tags.len(),
    decreases tags.len(),
{
    if tags.len() > 0 {
        let rest = ranked(tags.drop_last());
        let x = tags.last();
        let k = slot(rest, x.1, 0);
        lemma_ranked(tags.drop_last());
        lemma_slot(rest, x.1, 0);
        let r = rest.insert(k, x);
        assert forall|i: int, j: int| 0 <= i < j < r.len() implies version_order(
            (#[trigger] r[i]).1,
            (#[trigger] r[j]).1,
        ) != Order::Less by {
            if i == k {
                lemma_order_reversed(rest[k].1, rest[j - 1].1);
                lemma_order_chains(rest[j - 1].1, rest[k].1, x.1);
                lemma_order_reversed(rest[j - 1].1, x.1);
            }
        }
        vstd::seq_lib::to_multiset_insert(rest, k, x);
        assert(tags =~= tags.drop_last().push(x));
        vstd::seq_lib::to_multiset_build(tags.drop_last(), x);
    } else {
        assert(ranked(tags) =~= tags);
    }
}

/// The best of the candidates is a candidate, and no candidate has a
/// higher version; where there is no best, there is no candidate.
pub proof fn lemma_best_of(c: Seq<Option<VersionView>>, n: int)
    requires
        0 <= n <= c.len(),
    ensures
        match best_of(c, n) {
            Some(k) => 0 <= k < n && c[k] is Some && forall|j: int|
                0 <= j < n && (#[trigger] c[j]) is Some ==> version_order(c[j]->0, c[k]->0)
                    != Order::Greater,
            None => forall|j: int| 0 <= j < n ==> (#[trigger] c[j]) is None,
        },
    decreases n,
{
    if n > 0 {
        lemma_best_of(c, n - 1);
        match (c[n - 1], best_of(c, n - 1)) {
            (Some(v), Some(b)) => {
                let best = c[b]->0;
                lemma_order_equal(v, v);
                if version_order(v, best) == Order::Greater {
                    assert forall|j: int| 0 <= j < n && (#[trigger] c[j]) is Some implies version_order(
                        c[j]->0,
                        v,
                    ) != Order::Greater by {
                        if j < n - 1 {
                            lemma_order_reversed(v, best);
                            lemma_order_chains(c[j]->0, best, v);
                        }
                    }
                }
            },
            (Some(v), None) => {
                lemma_order_equal(v, v);
            },
            _ => {},
        }
    }
}

/// The release that is chosen is a candidate, and no candidate has a
/// higher version; where none is chosen, there is no candidate.
pub proof fn lemma_chosen_is_best(releases: Seq<ReleaseView>, w: Wish)
    ensures
        match chosen(releases, releases.len() as int, w) {
            Some(k) => 0 <= k < releases.len() && candidate(releases[k], w) is Some && forall|
                j: int,
            |
                0 <= j < releases.len() && candidate(#[trigger] releases[j], w) is Some
                    ==> version_order(candidate(releases[j], w)->0, candidate(releases[k], w)->0)
                    != Order::Greater,
            None => forall|j: int|
                0 <= j < releases.len() ==> candidate(#[trigger] releases[j], w) is None,
        },
{
    let c = candidates(releases, w);
    lemma_best_of(c, releases.len() as int);
    match best_of(c, releases.len() as int) {
        Some(k) => {
            assert forall|j: int|
                0 <= j < releases.len() && candidate(
                    #[trigger] releases[j],
                    w,
                ) is Some implies version_order(
                candidate(releases[j], w)->0,
                candidate(releases[k], w)->0,
            ) != Order::Greater by {
                assert(c[j] == candidate(releases[j], w));
            }
        },
        None => {
            assert forall|j: int| 0 <= j < releases.len() implies candidate(
                #[trigger] releases[j],
                w,
            ) is None by {
                assert(c[j] == candidate(releases[j], w));
            }
        },
    }
}

} // verus!
