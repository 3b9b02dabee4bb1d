//! The version model: a release triple, an ordered pre-release sequence and
//! informational build metadata, with a total order that never looks at the
//! metadata.

use crate::config::VersionBumpType;
use crate::number::{decimal_chars, decimal_text};
use crate::text::{append_chars, lemma_views_push, slice_of, string_of, views};
use vstd::prelude::*;

verus! {

/// The outcome of comparing two values.
#[derive(Debug, Clone, Copy, PartialEq, Eq, Structural)]
pub enum Order {
    Less,
    Equal,
    Greater,
}

/// One element of a pre-release sequence.
#[derive(Debug, Clone)]
pub enum Segment {
    Number(u64),
    Label(Vec<char>),
}

/// What a segment stands for.
pub enum SegmentView {
    Number(nat),
    Label(Seq<char>),
}

impl View for Segment {
    type V = SegmentView;

    open spec fn view(&self) -> SegmentView {
        match self {
            Segment::Number(n) => SegmentView::Number(*n as nat),
            Segment::Label(t) => SegmentView::Label(t@),
        }
    }
}

/// A version. Two versions that differ in their build metadata alone are
/// equal in the order.
#[derive(Debug, Clone)]
pub struct Version {
    major: u64,
    minor: u64,
    patch: u64,
    pre_release: Vec<Segment>,
    build_metadata: Vec<Vec<char>>,
}

/// What a version stands for.
pub struct VersionView {
    pub major: nat,
    pub minor: nat,
    pub patch: nat,
    pub pre_release: Seq<SegmentView>,
    pub build_metadata: Seq<Seq<char>>,
}

/// The views of a sequence of segments.
pub open spec fn segment_views(s: Seq<Segment>) -> Seq<SegmentView> {
    s.map_values(|x: Segment| x@)
}

impl View for Version {
    type V = VersionView;

    closed spec fn view(&self) -> VersionView {
        VersionView {
            major: self.major as nat,
            minor: self.minor as nat,
            patch: self.patch as nat,
            pre_release: segment_views(self.pre_release@),
            build_metadata: views(self.build_metadata@),
        }
    }
}

/// The order of two numbers.
pub open spec fn number_order(a: nat, b: nat) -> Order {
    if a < b {
        Order::Less
    } else if a > b {
        Order::Greater
    } else {
        Order::Equal
    }
}

/// The order of two texts from position `i` on: character by character, and
/// a text that ends first is the lesser.
pub open spec fn text_order_from(a: Seq<char>, b: Seq<char>, i: int) -> Order
    decreases a.len() - i,
{
    if i >= a.len() && i >= b.len() {
        Order::Equal
    } else if i >= a.len() {
        Order::Less
    } else if i >= b.len() {
        Order::Greater
    } else if i < 0 {
        Order::Equal
    } else if a[i] < b[i] {
        Order::Less
    } else if a[i] > b[i] {
        Order::Greater
    } else {
        text_order_from(a, b, i + 1)
    }
}

/// The order of two texts: character by character, and a text that ends
/// first is the lesser.
pub open spec fn text_order(a: Seq<char>, b: Seq<char>) -> Order {
    text_order_from(a, b, 0)
}

/// The order of two segments: a number is below every label, numbers go by
/// value and labels by their text.
pub open spec fn segment_order(a: SegmentView, b: SegmentView) -> Order {
    match (a, b) {
        (SegmentView::Number(x), SegmentView::Number(y)) => number_order(x, y),
        (SegmentView::Number(_), SegmentView::Label(_)) => Order::Less,
        (SegmentView::Label(_), SegmentView::Number(_)) => Order::Greater,
        (SegmentView::Label(x), SegmentView::Label(y)) => text_order(x, y),
    }
}

/// The order of two pre-release sequences from position `i` on: segment by
/// segment, and a sequence that ends first is the greater. So a version
/// without pre-release sorts above every pre-release of the same triple.
pub open spec fn pre_release_order_from(a: Seq<SegmentView>, b: Seq<SegmentView>, i: int) -> Order
    decreases a.len() - i,
{
    if i >= a.len() && i >= b.len() {
        Order::Equal
    } else if i >= a.len() {
        Order::Greater
    } else if i >= b.len() {
        Order::Less
    } else if i < 0 {
        Order::Equal
    } else if segment_order(a[i], b[i]) != Order::Equal {
        segment_order(a[i], b[i])
    } else {
        pre_release_order_from(a, b, i + 1)
    }
}

/// The order of two pre-release sequences: segment by segment, and a
/// sequence that ends first is the greater.
pub open spec fn pre_release_order(a: Seq<SegmentView>, b: Seq<SegmentView>) -> Order {
    pre_release_order_from(a, b, 0)
}

/// The order of two versions: by major, minor and patch, then by the
/// pre-release sequences. Build metadata takes no part.
pub open spec fn version_order(a: VersionView, b: VersionView) -> Order {
    if number_order(a.major, b.major) != Order::Equal {
        number_order(a.major, b.major)
    } else if number_order(a.minor, b.minor) != Order::Equal {
        number_order(a.minor, b.minor)
    } else if number_order(a.patch, b.patch) != Order::Equal {
        number_order(a.patch, b.patch)
    } else {
        pre_release_order(a.pre_release, b.pre_release)
    }
}

/// `a` is below `b`.
pub open spec fn below(a: VersionView, b: VersionView) -> bool {
    version_order(a, b) == Order::Less
}

/// `a` is below `b` or equal to it in the order.
pub open spec fn at_most(a: VersionView, b: VersionView) -> bool {
    version_order(a, b) != Order::Greater
}

/// The texts of `parts` with `sep` between each two neighbours.
pub open spec fn joined(parts: Seq<Seq<char>>, sep: char) -> Seq<char>
    decreases parts.len(),
{
    if parts.len() == 0 {
        Seq::empty()
    } else if parts.len() == 1 {
        parts[0]
    } else {
        joined(parts.drop_last(), sep).push(sep) + parts.last()
    }
}

/// How a segment is written.
pub open spec fn segment_text(s: SegmentView) -> Seq<char> {
    match s {
        SegmentView::Number(n) => decimal_text(n),
        SegmentView::Label(t) => t,
    }
}

/// How a pre-release sequence is written: its segments with dots between.
pub open spec fn pre_release_text(p: Seq<SegmentView>) -> Seq<char> {
    joined(p.map_values(|s: SegmentView| segment_text(s)), '.')
}

/// How build metadata is written: its parts with dots between.
pub open spec fn build_text(b: Seq<Seq<char>>) -> Seq<char> {
    joined(b, '.')
}

/// How a version is written: `major.minor.patch`, then `-` and the
/// pre-release where there is one, then `+` and the build metadata where
/// there is any.
pub open spec fn version_text(v: VersionView) -> Seq<char> {
    decimal_text(v.major).push('.') + decimal_text(v.minor).push('.') + decimal_text(v.patch)
        + (if v.pre_release.len() > 0 {
        seq!['-'] + pre_release_text(v.pre_release)
    } else {
        Seq::empty()
    }) + (if v.build_metadata.len() > 0 {
        seq!['+'] + build_text(v.build_metadata)
    } else {
        Seq::empty()
    })
}

/// What a bump makes of a version: the chosen component one higher, the
/// components below it zero, pre-release and build metadata gone.
pub open spec fn bumped(v: VersionView, kind: VersionBumpType) -> VersionView {
    match kind {
        VersionBumpType::Major => VersionView {
            major: v.major + 1,
            minor: 0,
            patch: 0,
            pre_release: Seq::empty(),
            build_metadata: Seq::empty(),
        },
        VersionBumpType::Minor => VersionView {
            major: v.major,
            minor: v.minor + 1,
            patch: 0,
            pre_release: Seq::empty(),
            build_metadata: Seq::empty(),
        },
        VersionBumpType::Patch => VersionView {
            major: v.major,
            minor: v.minor,
            patch: v.patch + 1,
            pre_release: Seq::empty(),
            build_metadata: Seq::empty(),
        },
    }
}

/// The component that a bump of kind `kind` raises.
pub open spec fn bump_target(v: VersionView, kind: VersionBumpType) -> nat {
    match kind {
        VersionBumpType::Major => v.major,
        VersionBumpType::Minor => v.minor,
        VersionBumpType::Patch => v.patch,
    }
}

/// The release `major.minor.patch`, without pre-release or build metadata.
pub open spec fn release(major: nat, minor: nat, patch: nat) -> VersionView {
    VersionView {
        major,
        minor,
        patch,
        pre_release: Seq::empty(),
        build_metadata: Seq::empty(),
    }
}

/// How `a` stands to `b`.
pub fn order_numbers(a: u64, b: u64) -> (r: Order)
    ensures
        r == number_order(a as nat, b as nat),
{
    if a < b {
        Order::Less
    } else if a > b {
        Order::Greater
    } else {
        Order::Equal
    }
}

/// How the text `a` stands to the text `b`.
pub fn order_texts(a: &Vec<char>, b: &Vec<char>) -> (r: Order)
    ensures
        r == text_order(a@, b@),
{
    let mut i: usize = 0;
    while i < a.len() && i < b.len()
        invariant
            i <= a.len(),
            i <= b.len(),
            text_order(a@, b@) == text_order_from(a@, b@, i as int),
        decreases a.len() - i,
    {
        if a[i] < b[i] {
            return Order::Less;
        }
        if a[i] > b[i] {
            return Order::Greater;
        }
        i += 1;
    }
    if i >= a.len() && i >= b.len() {
        Order::Equal
    } else if i >= a.len() {
        Order::Less
    } else {
        Order::Greater
    }
}

/// How the segment `a` stands to the segment `b`.
pub fn order_segments(a: &Segment, b: &Segment) -> (r: Order)
    ensures
        r == segment_order(a@, b@),
{
    match a {
        Segment::Number(x) => match b {
            Segment::Number(y) => order_numbers(*x, *y),
            Segment::Label(_) => Order::Less,
        },
        Segment::Label(x) => match b {
            Segment::Number(_) => Order::Greater,
            Segment::Label(y) => order_texts(x, y),
        },
    }
}

/// How the pre-release sequence `a` stands to `b`.
pub fn order_pre_releases(a: &Vec<Segment>, b: &Vec<Segment>) -> (r: Order)
    ensures
        r == pre_release_order(segment_views(a@), segment_views(b@)),
{
    let ghost sa = segment_views(a@);
    let ghost sb = segment_views(b@);
    let mut i: usize = 0;
    while i < a.len() && i < b.len()
        invariant
            i <= a.len(),
            i <= b.len(),
            sa == segment_views(a@),
            sb == segment_views(b@),
            pre_release_order(sa, sb) == pre_release_order_from(sa, sb, i as int),
        decreases a.len() - i,
    {
        let o = order_segments(&a[i], &b[i]);
        match o {
            Order::Equal => {},
            _ => {
                return o;
            },
        }
        i += 1;
    }
    if i >= a.len() && i >= b.len() {
        Order::Equal
    } else if i >= a.len() {
        Order::Greater
    } else {
        Order::Less
    }
}

/// What one more segment adds to the views of a sequence of segments.
pub proof fn lemma_segment_views_push(s: Seq<Segment>, t: Segment)
    ensures
        segment_views(s.push(t)) == segment_views(s).push(t@),
{
}

/// A copy of a sequence of texts.
pub fn copy_texts(v: &Vec<Vec<char>>) -> (r: Vec<Vec<char>>)
    ensures
        views(r@) == views(v@),
{
    let mut r: Vec<Vec<char>> = Vec::new();
    let mut i: usize = 0;
    while i < v.len()
        invariant
            i <= v.len(),
            views(r@) == views(v@).take(i as int),
        decreases v.len() - i,
    {
        let t = slice_of(&v[i], 0, v[i].len());
        assert(t@ =~= v@[i as int]@);
        proof {
            lemma_views_push(r@, t);
        }
        r.push(t);
        i += 1;
    }
    r
}

/// A copy of a sequence of segments.
pub fn copy_segments(v: &Vec<Segment>) -> (r: Vec<Segment>)
    ensures
        segment_views(r@) == segment_views(v@),
{
    let mut r: Vec<Segment> = Vec::new();
    let mut i: usize = 0;
    while i < v.len()
        invariant
            i <= v.len(),
            segment_views(r@) == segment_views(v@).take(i as int),
        decreases v.len() - i,
    {
        let s = match &v[i] {
            Segment::Number(n) => Segment::Number(*n),
            Segment::Label(t) => {
                let c = slice_of(t, 0, t.len());
                assert(c@ =~= t@);
                Segment::Label(c)
            },
        };
        proof {
            lemma_segment_views_push(r@, s);
        }
        r.push(s);
        i += 1;
    }
    r
}

/// The texts of `parts` with `sep` between each two neighbours, appended to
/// `out`.
pub fn push_joined(out: &mut Vec<char>, parts: &Vec<Vec<char>>, sep: char)
    ensures
        final(out)@ == old(out)@ + joined(views(parts@), sep),
{
    let ghost p = views(parts@);
    let mut i: usize = 0;
    while i < parts.len()
        invariant
            i <= parts.len(),
            p == views(parts@),
            out@ == old(out)@ + joined(p.take(i as int), sep),
        decreases parts.len() - i,
    {
        if i > 0 {
            out.push(sep);
        }
        append_chars(out, &parts[i]);
        proof {
            let q = p.take(i + 1);
            assert(q.drop_last() =~= p.take(i as int));
        }
        i += 1;
    }
    assert(p.take(parts.len() as int) =~= p);
}

/// The written forms of the segments of a pre-release sequence.
pub fn segment_texts(pre: &Vec<Segment>) -> (r: Vec<Vec<char>>)
    ensures
        views(r@) == segment_views(pre@).map_values(|s: SegmentView| segment_text(s)),
{
    let ghost want = segment_views(pre@).map_values(|s: SegmentView| segment_text(s));
    let mut r: Vec<Vec<char>> = Vec::new();
    let mut i: usize = 0;
    while i < pre.len()
        invariant
            i <= pre.len(),
            want == segment_views(pre@).map_values(|s: SegmentView| segment_text(s)),
            views(r@) == want.take(i as int),
        decreases pre.len() - i,
    {
        let t = match &pre[i] {
            Segment::Number(n) => decimal_chars(*n),
            Segment::Label(t) => {
                let c = slice_of(t, 0, t.len());
                assert(c@ =~= t@);
                c
            },
        };
        proof {
            lemma_views_push(r@, t);
        }
        r.push(t);
        i += 1;
    }
    r
}

impl Version {
    /// The release `major.minor.patch`.
    pub fn new(major: u32, minor: u32, patch: u32) -> (r: Version)
        ensures
            r@ == release(major as nat, minor as nat, patch as nat),
    {
        let r = Version {
            major: major as u64,
            minor: minor as u64,
            patch: patch as u64,
            pre_release: Vec::new(),
            build_metadata: Vec::new(),
        };
        assert(r@.pre_release =~= Seq::empty());
        assert(r@.build_metadata =~= Seq::empty());
        r
    }

    /// The release `major.minor.patch`, with components of full width.
    pub fn from_triple(major: u64, minor: u64, patch: u64) -> (r: Version)
        ensures
            r@ == release(major as nat, minor as nat, patch as nat),
    {
        let r = Version {
            major,
            minor,
            patch,
            pre_release: Vec::new(),
            build_metadata: Vec::new(),
        };
        assert(r@.pre_release =~= Seq::empty());
        assert(r@.build_metadata =~= Seq::empty());
        r
    }

    /// The version with exactly these parts.
    pub fn from_parts(
        major: u64,
        minor: u64,
        patch: u64,
        pre_release: Vec<Segment>,
        build_metadata: Vec<Vec<char>>,
    ) -> (r: Version)
        ensures
            r@ == (VersionView {
                major: major as nat,
                minor: minor as nat,
                patch: patch as nat,
                pre_release: segment_views(pre_release@),
                build_metadata: views(build_metadata@),
            }),
    {
        Version { major, minor, patch, pre_release, build_metadata }
    }

    /// A copy of this version.
    pub fn duplicate(&self) -> (r: Version)
        ensures
            r@ == self@,
    {
        Version {
            major: self.major,
            minor: self.minor,
            patch: self.patch,
            pre_release: copy_segments(&self.pre_release),
            build_metadata: copy_texts(&self.build_metadata),
        }
    }

    /// The version that follows this one at the given level.
    pub fn bump(&self, bump_type: VersionBumpType) -> (r: Version)
        requires
            bump_target(self@, bump_type) < u64::MAX,
        ensures
            r@ == bumped(self@, bump_type),
    {
        let r = match bump_type {
            VersionBumpType::Major => Version {
                major: self.major + 1,
                minor: 0,
                patch: 0,
                pre_release: Vec::new(),
                build_metadata: Vec::new(),
            },
            VersionBumpType::Minor => Version {
                major: self.major,
                minor: self.minor + 1,
                patch: 0,
                pre_release: Vec::new(),
                build_metadata: Vec::new(),
            },
            VersionBumpType::Patch => Version {
                major: self.major,
                minor: self.minor,
                patch: self.patch + 1,
                pre_release: Vec::new(),
                build_metadata: Vec::new(),
            },
        };
        assert(r@.pre_release =~= Seq::empty());
        assert(r@.build_metadata =~= Seq::empty());
        r
    }

    /// The version that follows this one at the given level, or nothing
    /// where the component to raise is already the largest number there is.
    pub fn checked_bump(&self, bump_type: VersionBumpType) -> (r: Option<Version>)
        ensures
            r is Some <==> bump_target(self@, bump_type) < u64::MAX,
            r matches Some(v) ==> v@ == bumped(self@, bump_type),
    {
        let target = match bump_type {
            VersionBumpType::Major => self.major,
            VersionBumpType::Minor => self.minor,
            VersionBumpType::Patch => self.patch,
        };
        if target < u64::MAX {
            Some(self.bump(bump_type))
        } else {
            None
        }
    }

    /// The major component.
    pub fn major(&self) -> (r: u64)
        ensures
            r == self@.major,
    {
        self.major
    }

    /// The minor component.
    pub fn minor(&self) -> (r: u64)
        ensures
            r == self@.minor,
    {
        self.minor
    }

    /// The patch component.
    pub fn patch(&self) -> (r: u64)
        ensures
            r == self@.patch,
    {
        self.patch
    }

    /// Whether the version has a pre-release sequence.
    pub fn is_prerelease(&self) -> (r: bool)
        ensures
            r == (self@.pre_release.len() > 0),
    {
        self.pre_release.len() > 0
    }

    /// The pre-release sequence as it is written, where there is one.
    pub fn prerelease(&self) -> (r: Option<String>)
        ensures
            r is Some <==> self@.pre_release.len() > 0,
            r matches Some(t) ==> t@ == pre_release_text(self@.pre_release),
    {
        if self.pre_release.len() == 0 {
            None
        } else {
            let texts = segment_texts(&self.pre_release);
            let mut out: Vec<char> = Vec::new();
            push_joined(&mut out, &texts, '.');
            Some(string_of(&out))
        }
    }

    /// The build metadata as it is written, where there is any.
    pub fn build_metadata(&self) -> (r: Option<String>)
        ensures
            r is Some <==> self@.build_metadata.len() > 0,
            r matches Some(t) ==> t@ == build_text(self@.build_metadata),
    {
        if self.build_metadata.len() == 0 {
            None
        } else {
            let mut out: Vec<char> = Vec::new();
            push_joined(&mut out, &self.build_metadata, '.');
            Some(string_of(&out))
        }
    }

    /// The version as it is written.
    pub fn to_chars(&self) -> (r: Vec<char>)
        ensures
            r@ == version_text(self@),
    {
        let mut out: Vec<char> = decimal_chars(self.major);
        out.push('.');
        let minor = decimal_chars(self.minor);
        append_chars(&mut out, &minor);
        out.push('.');
        let patch = decimal_chars(self.patch);
        append_chars(&mut out, &patch);
        if self.pre_release.len() > 0 {
            out.push('-');
            let texts = segment_texts(&self.pre_release);
            push_joined(&mut out, &texts, '.');
        }
        if self.build_metadata.len() > 0 {
            out.push('+');
            push_joined(&mut out, &self.build_metadata, '.');
        }
        out
    }

    /// The version as it is written.
    pub fn to_string(&self) -> (r: String)
        ensures
            r@ == version_text(self@),
    {
        let c = self.to_chars();
        string_of(&c)
    }

    /// How this version stands to `other` in the order.
    pub fn compare(&self, other: &Version) -> (r: Order)
        ensures
            r == version_order(self@, other@),
    {
        let a = order_numbers(self.major, other.major);
        match a {
            Order::Equal => {},
            _ => {
                return a;
            },
        }
        let b = order_numbers(self.minor, other.minor);
        match b {
            Order::Equal => {},
            _ => {
                return b;
            },
        }
        let c = order_numbers(self.patch, other.patch);
        match c {
            Order::Equal => {},
            _ => {
                return c;
            },
        }
        order_pre_releases(&self.pre_release, &other.pre_release)
    }
}

} // verus!
