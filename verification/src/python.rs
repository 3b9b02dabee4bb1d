//! Reading versions as packaging tools write them: a release tuple of any
//! length, pre-release, post-release and development markers, and a local
//! suffix. A text in the strict `major.minor.patch` form is read as such
//! first; every other text goes through the tolerant grammar.

use crate::error::ReleaserError;
use crate::number::{all_digits, decimal_value, parse_decimal};
use crate::text::{
    chars_of, digits_end, find_char, has_at, index_of, is_digit, is_letter,
    lemma_digits_end_bounds, lemma_views_push, scan_digits, slice_of, string_of, trim, trimmed,
    views,
};
use crate::version::{
    lemma_segment_views_push, segment_views, Segment, SegmentView, Version, VersionView,
};
use vstd::prelude::*;

verus! {

/// `s` without one leading `v`.
pub open spec fn without_v(s: Seq<char>) -> Seq<char> {
    if s.len() > 0 && s[0] == 'v' {
        s.subrange(1, s.len() as int)
    } else {
        s
    }
}

/// `s` with a dot in place of each underscore.
pub open spec fn dotted(s: Seq<char>) -> Seq<char> {
    s.map_values(
        |c: char|
            if c == '_' {
                '.'
            } else {
                c
            },
    )
}

/// The form in which a version text is read: trimmed, without one leading
/// `v`, with dots for underscores.
pub open spec fn normalized(s: Seq<char>) -> Seq<char> {
    dotted(without_v(trimmed(s)))
}

/// The text without one leading `v`.
pub fn strip_v(v: &Vec<char>) -> (r: Vec<char>)
    ensures
        r@ == without_v(v@),
{
    if v.len() > 0 && v[0] == 'v' {
        slice_of(v, 1, v.len())
    } else {
        let r = slice_of(v, 0, v.len());
        r
    }
}

/// The text with a dot in place of each underscore.
pub fn dots_for_underscores(v: &Vec<char>) -> (r: Vec<char>)
    ensures
        r@ == dotted(v@),
{
    let mut r: Vec<char> = Vec::new();
    let mut i: usize = 0;
    while i < v.len()
        invariant
            i <= v.len(),
            r@ == dotted(v@).take(i as int),
        decreases v.len() - i,
    {
        let c = v[i];
        r.push(
            if c == '_' {
                '.'
            } else {
                c
            },
        );
        i += 1;
    }
    r
}

/// The form in which a version text is read.
pub fn normalize(s: &str) -> (r: Vec<char>)
    ensures
        r@ == normalized(s@),
{
    let c = chars_of(s);
    let t = trim(&c);
    let w = strip_v(&t);
    dots_for_underscores(&w)
}

/// The pieces of `s` from position `i` on that `sep` parts from each other.
/// A text without `sep` is one piece; two neighbouring `sep` have an empty
/// piece between them.
pub open spec fn pieces_from(s: Seq<char>, sep: char, i: int) -> Seq<Seq<char>>
    decreases s.len() - i,
{
    let e = index_of(s, sep, i);
    if 0 <= i <= e && e < s.len() {
        seq![s.subrange(i, e)] + pieces_from(s, sep, e + 1)
    } else if 0 <= i <= s.len() {
        seq![s.subrange(i, s.len() as int)]
    } else {
        Seq::empty()
    }
}

/// The pieces of `s` that `sep` parts from each other.
pub open spec fn pieces(s: Seq<char>, sep: char) -> Seq<Seq<char>> {
    pieces_from(s, sep, 0)
}

/// Parts a text at each `sep`.
pub fn split(v: &Vec<char>, sep: char) -> (r: Vec<Vec<char>>)
    ensures
        views(r@) == pieces(v@, sep),
        r.len() >= 1,
{
    let mut r: Vec<Vec<char>> = Vec::new();
    let mut i: usize = 0;
    loop
        invariant
            i <= v.len(),
            pieces(v@, sep) == views(r@) + pieces_from(v@, sep, i as int),
        decreases v.len() - i,
    {
        let e = find_char(v, sep, i);
        let piece = slice_of(v, i, e);
        r.push(piece);
        if e < v.len() {
            i = e + 1;
        } else {
            return r;
        }
    }
}

/// The components of the release tuple that starts at `i`: runs of digits
/// with single dots between them. Empty where no digit stands at `i`.
pub open spec fn release_parts(s: Seq<char>, i: int) -> Seq<Seq<char>>
    decreases s.len() - i,
{
    let e = digits_end(s, i);
    if e <= i || i < 0 {
        Seq::empty()
    } else if e + 1 < s.len() && s[e] == '.' && is_digit(s[e + 1]) {
        seq![s.subrange(i, e)] + release_parts(s, e + 1)
    } else {
        seq![s.subrange(i, e)]
    }
}

/// Where the release tuple that starts at `i` ends.
pub open spec fn release_end(s: Seq<char>, i: int) -> int
    decreases s.len() - i,
{
    let e = digits_end(s, i);
    if e <= i || i < 0 {
        i
    } else if e + 1 < s.len() && s[e] == '.' && is_digit(s[e + 1]) {
        release_end(s, e + 1)
    } else {
        e
    }
}

/// Reads the release tuple at the start of `v`: its components and its end.
pub fn scan_release(v: &Vec<char>) -> (r: (Vec<Vec<char>>, usize))
    ensures
        views(r.0@) == release_parts(v@, 0),
        r.1 == release_end(v@, 0),
        r.1 <= v.len(),
        forall|k: int| 0 <= k < r.0.len() ==> all_digits(#[trigger] r.0@[k]@),
{
    let mut parts: Vec<Vec<char>> = Vec::new();
    let mut i: usize = 0;
    loop
        invariant
            i <= v.len(),
            release_parts(v@, 0) == views(parts@) + release_parts(v@, i as int),
            release_end(v@, 0) == release_end(v@, i as int),
            forall|k: int| 0 <= k < parts.len() ==> all_digits(#[trigger] parts@[k]@),
        decreases v.len() - i,
    {
        let e = scan_digits(v, i);
        if e <= i {
            return (parts, i);
        }
        let piece = slice_of(v, i, e);
        proof {
            lemma_digits_end_bounds(v@, i as int);
        }
        parts.push(piece);
        if e < v.len() && v[e] == '.' && e + 1 < v.len() && digit_at(v, e + 1) {
            i = e + 1;
        } else {
            return (parts, e);
        }
    }
}

fn digit_at(v: &Vec<char>, i: usize) -> (r: bool)
    requires
        i < v.len(),
    ensures
        r == is_digit(v@[i as int]),
{
    crate::text::digit(v[i])
}


/// A marker of the tolerant grammar as it was read: its label in canonical
/// form, the digits behind the label where there are any, and where the
/// marker ends.
pub struct Marker {
    pub label: Seq<char>,
    pub number: Option<Seq<char>>,
    pub end: int,
}

/// The three markers that may follow a release tuple, in this order.
#[derive(Debug, Clone, Copy, PartialEq, Eq, Structural)]
pub enum MarkerKind {
    Pre,
    Post,
    Dev,
}

/// `written` read at `j` as the label `canonical`, with the length read.
pub open spec fn label_here(s: Seq<char>, j: int, written: Seq<char>, canonical: Seq<char>)
    -> Option<(Seq<char>, int)> {
    if has_at(s, j, written) {
        Some((canonical, written.len() as int))
    } else {
        None
    }
}

/// The first of two readings that succeeds.
pub open spec fn or_else(a: Option<(Seq<char>, int)>, b: Option<(Seq<char>, int)>) -> Option<
    (Seq<char>, int),
> {
    if a is Some {
        a
    } else {
        b
    }
}

/// The pre-release label at `j`: `a` and `alpha` stand for `alpha`, `b` and
/// `beta` for `beta`, and `rc`, `c`, `pre` and `preview` for `rc`. Of two
/// spellings that both fit, the longer is read.
pub open spec fn pre_label(s: Seq<char>, j: int) -> Option<(Seq<char>, int)> {
    or_else(
        label_here(s, j, "alpha"@, "alpha"@),
        or_else(
            label_here(s, j, "a"@, "alpha"@),
            or_else(
                label_here(s, j, "beta"@, "beta"@),
                or_else(
                    label_here(s, j, "b"@, "beta"@),
                    or_else(
                        label_here(s, j, "rc"@, "rc"@),
                        or_else(
                            label_here(s, j, "c"@, "rc"@),
                            or_else(
                                label_here(s, j, "preview"@, "rc"@),
                                label_here(s, j, "pre"@, "rc"@),
                            ),
                        ),
                    ),
                ),
            ),
        ),
    )
}

/// The post-release label at `j`: `post`, `rev` or `r`, all read as `post`.
pub open spec fn post_label(s: Seq<char>, j: int) -> Option<(Seq<char>, int)> {
    or_else(
        label_here(s, j, "post"@, "post"@),
        or_else(label_here(s, j, "rev"@, "post"@), label_here(s, j, "r"@, "post"@)),
    )
}

/// The development label at `j`: `dev`.
pub open spec fn dev_label(s: Seq<char>, j: int) -> Option<(Seq<char>, int)> {
    label_here(s, j, "dev"@, "dev"@)
}

/// The label of the given kind at `j`, with the length read.
pub open spec fn label_at(s: Seq<char>, j: int, kind: MarkerKind) -> Option<(Seq<char>, int)> {
    match kind {
        MarkerKind::Pre => pre_label(s, j),
        MarkerKind::Post => post_label(s, j),
        MarkerKind::Dev => dev_label(s, j),
    }
}

/// The position behind one separator (`-`, `_` or `.`) at `i`, or `i` where
/// none stands there.
pub open spec fn separator_end(s: Seq<char>, i: int) -> int {
    if 0 <= i < s.len() && (s[i] == '-' || s[i] == '_' || s[i] == '.') {
        i + 1
    } else {
        i
    }
}

/// The marker of the given kind at `i`: an optional separator, the label,
/// and the digits that follow it.
pub open spec fn marker_at(s: Seq<char>, i: int, kind: MarkerKind) -> Option<Marker> {
    let j = separator_end(s, i);
    match label_at(s, j, kind) {
        Some((label, n)) => Some(
            Marker {
                label,
                number: if digits_end(s, j + n) > j + n {
                    Some(s.subrange(j + n, digits_end(s, j + n)))
                } else {
                    None
                },
                end: digits_end(s, j + n),
            },
        ),
        None => None,
    }
}

/// Where reading goes on after an optional marker that was looked for at `i`.
pub open spec fn after(m: Option<Marker>, i: int) -> int {
    match m {
        Some(m) => m.end,
        None => i,
    }
}

/// A marker as the scanner hands it out.
pub struct MarkerScan {
    pub label: Vec<char>,
    pub number: Option<Vec<char>>,
    pub end: usize,
}

impl View for MarkerScan {
    type V = Marker;

    open spec fn view(&self) -> Marker {
        Marker { label: self.label@, number: text_view(self.number), end: self.end as int }
    }
}

/// The text of optional characters.
pub open spec fn text_view(t: Option<Vec<char>>) -> Option<Seq<char>> {
    match t {
        Some(t) => Some(t@),
        None => None,
    }
}

/// What a scanned marker stands for.
pub open spec fn marker_view(m: Option<MarkerScan>) -> Option<Marker> {
    match m {
        Some(m) => Some(m@),
        None => None,
    }
}

/// What a scanned label stands for.
pub open spec fn label_view(l: Option<(Vec<char>, usize)>) -> Option<(Seq<char>, int)> {
    match l {
        Some(l) => Some((l.0@, l.1 as int)),
        None => None,
    }
}

fn read_label(v: &Vec<char>, j: usize, written: &str, canonical: &str) -> (r: Option<
    (Vec<char>, usize),
>)
    requires
        j <= v.len(),
    ensures
        label_view(r) == label_here(v@, j as int, written@, canonical@),
        r matches Some(l) ==> j + l.1 <= v.len(),
{
    let w = chars_of(written);
    if crate::text::matches_at(v, j, &w) {
        Some((chars_of(canonical), w.len()))
    } else {
        None
    }
}

fn scan_label(v: &Vec<char>, j: usize, kind: MarkerKind) -> (r: Option<(Vec<char>, usize)>)
    requires
        j <= v.len(),
    ensures
        label_view(r) == label_at(v@, j as int, kind),
        r matches Some(l) ==> j + l.1 <= v.len(),
{
    match kind {
        MarkerKind::Pre => {
            let r = read_label(v, j, "alpha", "alpha");
            if r.is_some() {
                return r;
            }
            let r = read_label(v, j, "a", "alpha");
            if r.is_some() {
                return r;
            }
            let r = read_label(v, j, "beta", "beta");
            if r.is_some() {
                return r;
            }
            let r = read_label(v, j, "b", "beta");
            if r.is_some() {
                return r;
            }
            let r = read_label(v, j, "rc", "rc");
            if r.is_some() {
                return r;
            }
            let r = read_label(v, j, "c", "rc");
            if r.is_some() {
                return r;
            }
            let r = read_label(v, j, "preview", "rc");
            if r.is_some() {
                return r;
            }
            read_label(v, j, "pre", "rc")
        },
        MarkerKind::Post => {
            let r = read_label(v, j, "post", "post");
            if r.is_some() {
                return r;
            }
            let r = read_label(v, j, "rev", "post");
            if r.is_some() {
                return r;
            }
            read_label(v, j, "r", "post")
        },
        MarkerKind::Dev => read_label(v, j, "dev", "dev"),
    }
}

/// Reads the marker of the given kind at `i`, where one stands there.
pub(crate) fn scan_marker(v: &Vec<char>, i: usize, kind: MarkerKind) -> (r: Option<MarkerScan>)
    requires
        i <= v.len(),
    ensures
        marker_view(r) == marker_at(v@, i as int, kind),
        r matches Some(m) ==> i <= m.end <= v.len(),
        r matches Some(m) ==> (m.number matches Some(d) ==> all_digits(d@)),
{
    let j: usize = if i < v.len() && (v[i] == '-' || v[i] == '_' || v[i] == '.') {
        i + 1
    } else {
        i
    };
    match scan_label(v, j, kind) {
        Some((label, n)) => {
            let e = scan_digits(v, j + n);
            proof {
                lemma_digits_end_bounds(v@, j + n);
            }
            let number = if e > j + n {
                Some(slice_of(v, j + n, e))
            } else {
                None
            };
            Some(MarkerScan { label, number, end: e })
        },
        None => None,
    }
}

/// The value of component `k` of a release tuple: zero where the tuple has
/// no such component, and zero where its digits spell more than 64 bits hold.
pub open spec fn component(parts: Seq<Seq<char>>, k: int) -> nat {
    if 0 <= k < parts.len() && decimal_value(parts[k]) <= u64::MAX {
        decimal_value(parts[k])
    } else {
        0
    }
}

/// The number segment that the digits behind a label give: none where they
/// begin with a needless zero or spell more than 64 bits hold.
pub open spec fn number_segment(digits: Seq<char>) -> Option<SegmentView> {
    if (digits.len() > 1 && digits[0] == '0') || decimal_value(digits) > u64::MAX {
        None
    } else {
        Some(SegmentView::Number(decimal_value(digits)))
    }
}

/// The segments that one marker adds to the pre-release sequence: its label,
/// then its number where it has one.
pub open spec fn marker_segments(m: Option<Marker>) -> Option<Seq<SegmentView>> {
    match m {
        None => Some(Seq::empty()),
        Some(m) => match m.number {
            None => Some(seq![SegmentView::Label(m.label)]),
            Some(d) => match number_segment(d) {
                Some(n) => Some(seq![SegmentView::Label(m.label), n]),
                None => None,
            },
        },
    }
}

/// The pre-release sequence of a version with these markers: what the
/// pre-release marker gives, then what the development marker gives.
pub open spec fn pre_release_of(pre: Option<Marker>, dev: Option<Marker>) -> Option<
    Seq<SegmentView>,
> {
    match (marker_segments(pre), marker_segments(dev)) {
        (Some(a), Some(b)) => Some(a + b),
        _ => None,
    }
}

/// A character that build metadata may hold.
pub open spec fn is_build_char(c: char) -> bool {
    is_letter(c) || is_digit(c) || c == '-'
}

/// A part of build metadata: not empty, letters, digits and hyphens only.
pub open spec fn valid_identifier(t: Seq<char>) -> bool {
    t.len() > 0 && forall|k: int| 0 <= k < t.len() ==> is_build_char(#[trigger] t[k])
}

/// Whether every part is a valid part of build metadata.
pub open spec fn all_valid(p: Seq<Seq<char>>) -> bool {
    forall|k: int| 0 <= k < p.len() ==> valid_identifier(#[trigger] p[k])
}

/// What a post-release marker adds to the build metadata: `post` and its
/// digits, `post0` where it has none.
pub open spec fn post_parts(m: Option<Marker>) -> Seq<Seq<char>> {
    match m {
        None => Seq::empty(),
        Some(m) => match m.number {
            Some(d) => seq!["post"@ + d],
            None => seq!["post"@ + "0"@],
        },
    }
}

/// What a local suffix adds to the build metadata: its pieces between dots.
/// None where a piece is no valid identifier.
pub open spec fn local_parts(local: Option<Seq<char>>) -> Option<Seq<Seq<char>>> {
    match local {
        None => Some(Seq::empty()),
        Some(t) => if t.len() == 0 {
            Some(Seq::empty())
        } else if all_valid(pieces(t, '.')) {
            Some(pieces(t, '.'))
        } else {
            None
        },
    }
}

/// The build metadata of a version read by the tolerant grammar: the
/// release components behind the third, then the post-release part, then
/// the parts of the local suffix.
pub open spec fn build_of(parts: Seq<Seq<char>>, post: Option<Marker>, local: Option<Seq<char>>)
    -> Option<Seq<Seq<char>>> {
    match local_parts(local) {
        Some(l) => Some(
            (if parts.len() > 3 {
                parts.skip(3)
            } else {
                Seq::empty()
            }) + post_parts(post) + l,
        ),
        None => None,
    }
}

/// What the tolerant grammar makes of `core`, the text before the first
/// `+`, and of `local`, the text behind it: a release tuple, then an
/// optional pre-release, post-release and development marker, and nothing
/// after them. The first three components of the tuple are major, minor and
/// patch.
pub open spec fn core_version(core: Seq<char>, local: Option<Seq<char>>) -> Option<VersionView> {
    let parts = release_parts(core, 0);
    let behind_release = release_end(core, 0);
    let pre = marker_at(core, behind_release, MarkerKind::Pre);
    let behind_pre = after(pre, behind_release);
    let post = marker_at(core, behind_pre, MarkerKind::Post);
    let behind_post = after(post, behind_pre);
    let dev = marker_at(core, behind_post, MarkerKind::Dev);
    let behind_dev = after(dev, behind_post);
    if parts.len() == 0 || decimal_value(parts[0]) > u64::MAX || behind_dev != core.len() {
        None
    } else {
        match (pre_release_of(pre, dev), build_of(parts, post, local)) {
            (Some(pre_release), Some(build_metadata)) => Some(
                VersionView {
                    major: decimal_value(parts[0]),
                    minor: component(parts, 1),
                    patch: component(parts, 2),
                    pre_release,
                    build_metadata,
                },
            ),
            _ => None,
        }
    }
}

/// What the tolerant grammar makes of a normalized text. The text parts at
/// its first `+` into the core and the local suffix.
pub open spec fn tolerant_version(s: Seq<char>) -> Option<VersionView> {
    let plus = index_of(s, '+', 0);
    core_version(
        s.subrange(0, plus),
        if plus < s.len() {
            Some(s.subrange(plus + 1, s.len() as int))
        } else {
            None
        },
    )
}

/// What an optional version stands for.
pub open spec fn version_view(v: Option<Version>) -> Option<VersionView> {
    match v {
        Some(v) => Some(v@),
        None => None,
    }
}


/// What an optional segment stands for.
pub open spec fn segment_view(s: Option<Segment>) -> Option<SegmentView> {
    match s {
        Some(s) => Some(s@),
        None => None,
    }
}

fn read_number_segment(d: &Vec<char>) -> (r: Option<Segment>)
    requires
        all_digits(d@),
    ensures
        segment_view(r) == number_segment(d@),
{
    if d.len() > 1 && d[0] == '0' {
        return None;
    }
    assert(d@.subrange(0, d.len() as int) =~= d@);
    match parse_decimal(d, 0, d.len()) {
        Some(n) => Some(Segment::Number(n)),
        None => None,
    }
}

/// Appends to `out` the segments that the marker `m` gives. False, with
/// `out` in no stated condition, where its number is not acceptable.
fn push_marker_segments(out: &mut Vec<Segment>, m: &Option<MarkerScan>) -> (ok: bool)
    requires
        m matches Some(x) ==> (x.number matches Some(d) ==> all_digits(d@)),
    ensures
        ok == marker_segments(marker_view(*m)) is Some,
        ok ==> segment_views(final(out)@) == segment_views(old(out)@) + marker_segments(
            marker_view(*m),
        )->0,
{
    match m {
        None => {
            true
        },
        Some(x) => {
            let label = Segment::Label(slice_of(&x.label, 0, x.label.len()));
            assert(label@ == SegmentView::Label(x.label@)) by {
                assert(x.label@.subrange(0, x.label@.len() as int) =~= x.label@);
            }
            match &x.number {
                None => {
                    out.push(label);
                    true
                },
                Some(d) => match read_number_segment(d) {
                    Some(n) => {
                        out.push(label);
                        out.push(n);
                        true
                    },
                    None => false,
                },
            }
        },
    }
}

fn build_char(c: char) -> (r: bool)
    ensures
        r == is_build_char(c),
{
    ('a' <= c && c <= 'z') || ('A' <= c && c <= 'Z') || ('0' <= c && c <= '9') || c == '-'
}

fn is_valid_identifier(t: &Vec<char>) -> (r: bool)
    ensures
        r == valid_identifier(t@),
{
    if t.len() == 0 {
        return false;
    }
    let mut i: usize = 0;
    while i < t.len()
        invariant
            i <= t.len(),
            forall|k: int| 0 <= k < i ==> is_build_char(#[trigger] t@[k]),
        decreases t.len() - i,
    {
        if !build_char(t[i]) {
            return false;
        }
        i += 1;
    }
    true
}

fn are_all_valid(p: &Vec<Vec<char>>) -> (r: bool)
    ensures
        r == all_valid(views(p@)),
{
    let mut i: usize = 0;
    while i < p.len()
        invariant
            i <= p.len(),
            forall|k: int| 0 <= k < i ==> valid_identifier(#[trigger] views(p@)[k]),
        decreases p.len() - i,
    {
        if !is_valid_identifier(&p[i]) {
            assert(!valid_identifier(views(p@)[i as int]));
            return false;
        }
        i += 1;
    }
    true
}

/// Appends to `out` the parts that the local suffix gives. False where a
/// piece of it is no valid identifier.
fn push_local_parts(out: &mut Vec<Vec<char>>, local: &Option<Vec<char>>) -> (ok: bool)
    ensures
        ok == local_parts(text_view(*local)) is Some,
        ok ==> views(final(out)@) == views(old(out)@) + local_parts(
            text_view(*local),
        )->0,
{
    match local {
        None => {
            true
        },
        Some(t) => {
            if t.len() == 0 {
                return true;
            }
            let mut p = split(t, '.');
            if !are_all_valid(&p) {
                return false;
            }
            out.append(&mut p);
            true
        },
    }
}

/// Reads `core` and `local` by the tolerant grammar.
pub fn parse_core(core: &Vec<char>, local: &Option<Vec<char>>) -> (r: Option<Version>)
    ensures
        version_view(r) == core_version(core@, text_view(*local)),
{
    let (parts, behind_release) = scan_release(core);
    if parts.len() == 0 {
        return None;
    }
    assert(parts@[0]@.subrange(0, parts@[0]@.len() as int) =~= parts@[0]@);
    let major = match parse_decimal(&parts[0], 0, parts[0].len()) {
        Some(n) => n,
        None => {
            return None;
        },
    };
    let minor: u64 = if parts.len() > 1 {
        assert(parts@[1]@.subrange(0, parts@[1]@.len() as int) =~= parts@[1]@);
        match parse_decimal(&parts[1], 0, parts[1].len()) {
            Some(n) => n,
            None => 0,
        }
    } else {
        0
    };
    let patch: u64 = if parts.len() > 2 {
        assert(parts@[2]@.subrange(0, parts@[2]@.len() as int) =~= parts@[2]@);
        match parse_decimal(&parts[2], 0, parts[2].len()) {
            Some(n) => n,
            None => 0,
        }
    } else {
        0
    };
    let pre = scan_marker(core, behind_release, MarkerKind::Pre);
    let behind_pre: usize = match &pre {
        Some(m) => m.end,
        None => behind_release,
    };
    let post = scan_marker(core, behind_pre, MarkerKind::Post);
    let behind_post: usize = match &post {
        Some(m) => m.end,
        None => behind_pre,
    };
    let dev = scan_marker(core, behind_post, MarkerKind::Dev);
    let behind_dev: usize = match &dev {
        Some(m) => m.end,
        None => behind_post,
    };
    if behind_dev != core.len() {
        return None;
    }
    let mut segments: Vec<Segment> = Vec::new();
    if !push_marker_segments(&mut segments, &pre) {
        return None;
    }
    if !push_marker_segments(&mut segments, &dev) {
        return None;
    }
    let mut build: Vec<Vec<char>> = Vec::new();
    let mut k: usize = 3;
    while k < parts.len()
        invariant
            3 <= k,
            parts.len() > 3 ==> k <= parts.len(),
            parts.len() > 3 ==> views(build@) == views(parts@).subrange(3, k as int),
            parts.len() <= 3 ==> build@.len() == 0,
        decreases parts.len() - k,
    {
        let t = slice_of(&parts[k], 0, parts[k].len());
        assert(t@ =~= parts@[k as int]@);
        proof {
            lemma_views_push(build@, t);
        }
        build.push(t);
        k += 1;
    }
    let ghost extra = if parts.len() > 3 {
        views(parts@).skip(3)
    } else {
        Seq::<Seq<char>>::empty()
    };
    if let Some(m) = &post {
        let mut t = chars_of("post");
        match &m.number {
            Some(d) => {
                crate::text::append_chars(&mut t, d);
            },
            None => {
                crate::text::append_str(&mut t, "0");
            },
        }
        build.push(t);
        assert(views(build@) =~= extra + post_parts(marker_view(post)));
    }
    if !push_local_parts(&mut build, local) {
        return None;
    }
    Some(Version::from_parts(major, minor, patch, segments, build))
}

/// Reads a normalized text by the tolerant grammar.
pub fn parse_tolerant_chars(s: &Vec<char>) -> (r: Option<Version>)
    ensures
        version_view(r) == tolerant_version(s@),
{
    let plus = find_char(s, '+', 0);
    let core = slice_of(s, 0, plus);
    let local = if plus < s.len() {
        Some(slice_of(s, plus + 1, s.len()))
    } else {
        None
    };
    parse_core(&core, &local)
}


/// What the strict reader makes of a text: major, minor, patch, the
/// pre-release as written and the build metadata as written; nothing where
/// the text is not in the strict form.
pub uninterp spec fn strict_reading(text: Seq<char>) -> Option<
    (u64, u64, u64, Seq<char>, Seq<char>),
>;

/// What a strict reading holds, its texts by their characters.
pub open spec fn raw_view(r: Option<(u64, u64, u64, String, String)>) -> Option<
    (u64, u64, u64, Seq<char>, Seq<char>),
> {
    match r {
        Some(p) => Some((p.0, p.1, p.2, p.3@, p.4@)),
        None => None,
    }
}

/// `semver::Version::parse`: the text is read as `major.minor.patch` with an
/// optional `-` and pre-release and an optional `+` and build metadata. The
/// contract only gives the outcome its name: the same text always reads the
/// same.
#[verifier::external_body]
fn read_strict(text: &str) -> (r: Option<(u64, u64, u64, String, String)>)
    ensures
        raw_view(r) == strict_reading(text@),
{
    match semver::Version::parse(text) {
        Ok(v) => Some(
            (v.major, v.minor, v.patch, v.pre.as_str().to_string(), v.build.as_str().to_string()),
        ),
        Err(_) => None,
    }
}

/// The segment that one part of a written pre-release is: a number where
/// the part is all digits, a label otherwise. None where the digits spell
/// more than 64 bits hold.
pub open spec fn segment_of(part: Seq<char>) -> Option<SegmentView> {
    if part.len() > 0 && all_digits(part) {
        if decimal_value(part) <= u64::MAX {
            Some(SegmentView::Number(decimal_value(part)))
        } else {
            None
        }
    } else {
        Some(SegmentView::Label(part))
    }
}

/// The segments of a written pre-release; none for an empty text.
pub open spec fn segments_of(pre: Seq<char>) -> Option<Seq<SegmentView>> {
    if pre.len() == 0 {
        Some(Seq::empty())
    } else if forall|k: int|
        0 <= k < pieces(pre, '.').len() ==> segment_of(#[trigger] pieces(pre, '.')[k]) is Some {
        Some(pieces(pre, '.').map_values(|p: Seq<char>| segment_of(p)->0))
    } else {
        None
    }
}

/// The parts of written build metadata; none for an empty text.
pub open spec fn parts_of(build: Seq<char>) -> Seq<Seq<char>> {
    if build.len() == 0 {
        Seq::empty()
    } else {
        pieces(build, '.')
    }
}

/// The version that a strict reading stands for.
pub open spec fn strict_version(
    major: u64,
    minor: u64,
    patch: u64,
    pre: Seq<char>,
    build: Seq<char>,
) -> Option<VersionView> {
    match segments_of(pre) {
        Some(pre_release) => Some(
            VersionView {
                major: major as nat,
                minor: minor as nat,
                patch: patch as nat,
                pre_release,
                build_metadata: parts_of(build),
            },
        ),
        None => None,
    }
}

fn is_all_digits(v: &Vec<char>) -> (r: bool)
    ensures
        r == all_digits(v@),
{
    let mut i: usize = 0;
    while i < v.len()
        invariant
            i <= v.len(),
            forall|k: int| 0 <= k < i ==> is_digit(#[trigger] v@[k]),
        decreases v.len() - i,
    {
        if !crate::text::digit(v[i]) {
            return false;
        }
        i += 1;
    }
    true
}

fn read_segment(part: &Vec<char>) -> (r: Option<Segment>)
    ensures
        segment_view(r) == segment_of(part@),
{
    if part.len() > 0 && is_all_digits(part) {
        assert(part@.subrange(0, part@.len() as int) =~= part@);
        match parse_decimal(part, 0, part.len()) {
            Some(n) => Some(Segment::Number(n)),
            None => None,
        }
    } else {
        let c = slice_of(part, 0, part.len());
        assert(c@ =~= part@);
        Some(Segment::Label(c))
    }
}

/// What optional segments stand for.
pub open spec fn segments_view(s: Option<Vec<Segment>>) -> Option<Seq<SegmentView>> {
    match s {
        Some(s) => Some(segment_views(s@)),
        None => None,
    }
}

fn read_segments(pre: &Vec<char>) -> (r: Option<Vec<Segment>>)
    ensures
        segments_view(r) == segments_of(pre@),
{
    let mut out: Vec<Segment> = Vec::new();
    if pre.len() == 0 {
        return Some(out);
    }
    let parts = split(pre, '.');
    let ghost p = pieces(pre@, '.');
    let mut i: usize = 0;
    while i < parts.len()
        invariant
            i <= parts.len(),
            p == views(parts@),
            p == pieces(pre@, '.'),
            forall|k: int| 0 <= k < i ==> segment_of(#[trigger] p[k]) is Some,
            segment_views(out@) == p.take(i as int).map_values(|x: Seq<char>| segment_of(x)->0),
        decreases parts.len() - i,
    {
        match read_segment(&parts[i]) {
            Some(seg) => {
                proof {
                    lemma_segment_views_push(out@, seg);
                }
                out.push(seg);
            },
            None => {
                assert(p[i as int] == parts@[i as int]@);
                return None;
            },
        }
        i += 1;
    }
    Some(out)
}

/// The version that a strict reading stands for: the pre-release parted at
/// its dots into numbers and labels, the build metadata parted at its dots.
pub fn version_from_strict(major: u64, minor: u64, patch: u64, pre: &str, build: &str) -> (r:
    Option<Version>)
    ensures
        version_view(r) == strict_version(major, minor, patch, pre@, build@),
{
    let pre_chars = chars_of(pre);
    let build_chars = chars_of(build);
    match read_segments(&pre_chars) {
        Some(segments) => {
            let parts = if build_chars.len() == 0 {
                let e: Vec<Vec<char>> = Vec::new();
                assert(views(e@) =~= Seq::empty());
                e
            } else {
                split(&build_chars, '.')
            };
            Some(Version::from_parts(major, minor, patch, segments, parts))
        },
        None => None,
    }
}

/// What a normalized text reads as: by the strict form where the text is
/// in it, by the tolerant grammar otherwise.
pub open spec fn read_version(text: Seq<char>) -> Option<VersionView> {
    match strict_reading(text) {
        Some(p) => strict_version(p.0, p.1, p.2, p.3, p.4),
        None => tolerant_version(text),
    }
}

/// What a version text reads as.
pub open spec fn python_version(s: Seq<char>) -> Option<VersionView> {
    read_version(normalized(s))
}

/// Reads a normalized text by the tolerant grammar.
pub fn parse_tolerant(text: &str) -> (r: Option<Version>)
    ensures
        version_view(r) == tolerant_version(text@),
{
    let c = chars_of(text);
    parse_tolerant_chars(&c)
}

/// Reads a version as packaging tools write it.
pub fn parse_python_version(version: &str) -> (r: Option<Version>)
    ensures
        version_view(r) == python_version(version@),
{
    let n = normalize(version);
    let text = string_of(&n);
    match read_strict(text.as_str()) {
        Some(p) => version_from_strict(p.0, p.1, p.2, p.3.as_str(), p.4.as_str()),
        None => parse_tolerant_chars(&n),
    }
}

impl Version {
    /// Reads a version. Where the text is none, the error carries it,
    /// trimmed and without its leading `v`.
    pub fn parse(s: &str) -> (r: Result<Version, ReleaserError>)
        ensures
            match r {
                Ok(v) => python_version(s@) == Some(v@),
                Err(ReleaserError::VersionError(t)) => python_version(s@) is None && t@
                    == without_v(trimmed(s@)),
                Err(_) => false,
            },
    {
        match parse_python_version(s) {
            Some(v) => Ok(v),
            None => {
                let c = chars_of(s);
                let t = trim(&c);
                let w = strip_v(&t);
                Err(ReleaserError::VersionError(string_of(&w)))
            },
        }
    }
}

} // verus!
