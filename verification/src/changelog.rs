//! Cutting a changelog into its release sections. Three heading styles are
//! known; the sections whose version lies above `old` and at or below `new`
//! are handed out in the order of the document.

use crate::number::{decimal_value, parse_decimal};
use crate::text::{
    chars_of, digits_end, find_char, has_at, index_of, lemma_digits_end_bounds, lines, lines_of,
    matches_at, scan_digits, scan_spaces, scan_word, slice_of, spaces_end, string_of, trim,
    trimmed, views, word_end,
};
use vstd::prelude::*;

verus! {

/// The numbers that the runs of digits in `s` spell, from position `i` on.
/// A run that spells more than 32 bits hold is passed over.
pub open spec fn numbers_from(s: Seq<char>, i: int) -> Seq<u32>
    decreases s.len() - i,
{
    let e = digits_end(s, i);
    if i < 0 || i >= s.len() {
        Seq::empty()
    } else if i < e <= s.len() {
        (if decimal_value(s.subrange(i, e)) <= u32::MAX {
            seq![decimal_value(s.subrange(i, e)) as u32]
        } else {
            Seq::empty()
        }) + numbers_from(s, e)
    } else {
        numbers_from(s, i + 1)
    }
}

/// The numbers by which a version text is placed in a window: those that
/// the runs of digits before the first `+` spell. What follows the `+` is
/// build metadata and takes no part.
pub open spec fn version_numbers(s: Seq<char>) -> Seq<u32> {
    numbers_from(s.subrange(0, index_of(s, '+', 0)), 0)
}

/// The numbers of the text of `v`.
pub fn numbers_of(v: &Vec<char>) -> (r: Vec<u32>)
    ensures
        r@ == version_numbers(v@),
{
    let plus = find_char(v, '+', 0);
    let s = slice_of(v, 0, plus);
    let mut r: Vec<u32> = Vec::new();
    let mut i: usize = 0;
    while i < s.len()
        invariant
            i <= s.len(),
            numbers_from(s@, 0) == r@ + numbers_from(s@, i as int),
        decreases s.len() - i,
    {
        let e = scan_digits(&s, i);
        if e > i {
            proof {
                lemma_digits_end_bounds(s@, i as int);
            }
            if let Some(n) = parse_decimal(&s, i, e) {
                if n <= 0xffff_ffff {
                    r.push(n as u32);
                }
            }
            i = e;
        } else {
            i += 1;
        }
    }
    r
}

/// The numbers by which a version text is placed in a window.
pub fn normalize_version(version: &str) -> (r: Vec<u32>)
    ensures
        r@ == version_numbers(version@),
{
    let c = chars_of(version);
    numbers_of(&c)
}

/// The number at position `i`, zero behind the end.
pub open spec fn padded(a: Seq<u32>, i: int) -> int {
    if 0 <= i < a.len() {
        a[i] as int
    } else {
        0
    }
}

/// The order of two number sequences from position `i` on, the shorter one
/// filled up with zeros: -1 where `a` is below `b`, 1 where it is above, 0
/// where they are equal.
pub open spec fn numbers_order_from(a: Seq<u32>, b: Seq<u32>, i: int) -> int
    decreases a.len() + b.len() - i,
{
    if i < 0 || (i >= a.len() && i >= b.len()) {
        0
    } else if padded(a, i) < padded(b, i) {
        -1
    } else if padded(a, i) > padded(b, i) {
        1
    } else {
        numbers_order_from(a, b, i + 1)
    }
}

/// The order of two number sequences, the shorter one filled up with zeros.
pub open spec fn numbers_order(a: Seq<u32>, b: Seq<u32>) -> int {
    numbers_order_from(a, b, 0)
}

/// Compares two number sequences place by place, the shorter one filled up
/// with zeros.
pub fn compare_versions(a: &[u32], b: &[u32]) -> (r: i32)
    ensures
        r == numbers_order(a@, b@),
{
    let mut i: usize = 0;
    while i < a.len() || i < b.len()
        invariant
            numbers_order(a@, b@) == numbers_order_from(a@, b@, i as int),
        decreases a.len() + b.len() - i,
    {
        let x: u32 = if i < a.len() {
            a[i]
        } else {
            0
        };
        let y: u32 = if i < b.len() {
            b[i]
        } else {
            0
        };
        if x < y {
            return -1;
        }
        if x > y {
            return 1;
        }
        i += 1;
    }
    0
}

/// Whether a version with the numbers `c` lies in the window above `old`
/// and at or below `new`.
pub open spec fn in_window(c: Seq<u32>, old: Seq<u32>, new: Seq<u32>) -> bool {
    numbers_order(c, old) > 0 && numbers_order(c, new) <= 0
}

/// A separator inside a version token.
pub open spec fn is_joint(c: char) -> bool {
    c == '.' || c == '_' || c == '-'
}

/// A dash that parts a heading's version from its date: hyphen, en dash or
/// em dash.
pub open spec fn is_dash(c: char) -> bool {
    c == '-' || c == '\u{2013}' || c == '\u{2014}'
}

/// `i + 1` where `c` stands at `i`, else `i`.
pub open spec fn skip(s: Seq<char>, i: int, c: char) -> int {
    if 0 <= i < s.len() && s[i] == c {
        i + 1
    } else {
        i
    }
}

/// The end of the run of digits with at least one digit that follows a dot
/// at `i`; `i` where no dot or no digit stands.
pub open spec fn dot_digits_end(s: Seq<char>, i: int) -> int {
    if 0 <= i < s.len() && s[i] == '.' && digits_end(s, i + 1) > i + 1 {
        digits_end(s, i + 1)
    } else {
        i
    }
}

/// The end of the suffix that may close a version token at `i`: an optional
/// joint and at least one word character; `i` where there is none.
pub open spec fn suffix_end(s: Seq<char>, i: int) -> int {
    let j = if 0 <= i < s.len() && is_joint(s[i]) {
        i + 1
    } else {
        i
    };
    if word_end(s, j) > j {
        word_end(s, j)
    } else {
        i
    }
}

/// The end of the version token that starts at `i`: digits, a dot, digits,
/// optionally a dot and digits once more, optionally a suffix. `i` where no
/// token starts. Every token holds a dot.
pub open spec fn token_end(s: Seq<char>, i: int) -> int {
    let d1 = digits_end(s, i);
    let d2 = dot_digits_end(s, d1);
    if i < 0 || d1 <= i || d2 <= d1 {
        i
    } else {
        suffix_end(s, dot_digits_end(s, d2))
    }
}

fn skip_char(v: &Vec<char>, i: usize, c: char) -> (r: usize)
    requires
        i <= v.len(),
    ensures
        r == skip(v@, i as int, c),
        i <= r <= v.len(),
{
    if i < v.len() && v[i] == c {
        i + 1
    } else {
        i
    }
}

fn scan_dot_digits(v: &Vec<char>, i: usize) -> (r: usize)
    requires
        i <= v.len(),
    ensures
        r == dot_digits_end(v@, i as int),
        i <= r <= v.len(),
{
    if i < v.len() && v[i] == '.' {
        let e = scan_digits(v, i + 1);
        if e > i + 1 {
            return e;
        }
    }
    i
}

fn scan_suffix(v: &Vec<char>, i: usize) -> (r: usize)
    requires
        i <= v.len(),
    ensures
        r == suffix_end(v@, i as int),
        i <= r <= v.len(),
{
    let j: usize = if i < v.len() && (v[i] == '.' || v[i] == '_' || v[i] == '-') {
        i + 1
    } else {
        i
    };
    let w = scan_word(v, j);
    if w > j {
        w
    } else {
        i
    }
}

/// The end of the version token that starts at `i`, or `i` where none does.
pub(crate) fn scan_token(v: &Vec<char>, i: usize) -> (r: usize)
    requires
        i <= v.len(),
    ensures
        r == token_end(v@, i as int),
        i <= r <= v.len(),
{
    let d1 = scan_digits(v, i);
    if d1 <= i {
        return i;
    }
    let d2 = scan_dot_digits(v, d1);
    if d2 <= d1 {
        return i;
    }
    let d3 = scan_dot_digits(v, d2);
    scan_suffix(v, d3)
}

/// What a heading line says: the version as written and the date, if any.
pub struct Heading {
    pub version: Seq<char>,
    pub date: Option<Seq<char>>,
}

/// The date in round brackets at `j`: an opening bracket, a text that is
/// not empty and holds no closing bracket, the closing bracket, and nothing
/// but white space up to the end of the line. The date is the text between
/// the brackets, trimmed.
pub open spec fn bracketed_date(s: Seq<char>, j: int) -> Option<Seq<char>> {
    let c = index_of(s, ')', j + 1);
    if 0 <= j < s.len() && s[j] == '(' && j + 1 < c && c < s.len() && spaces_end(s, c + 1)
        == s.len() {
        Some(trimmed(s.subrange(j + 1, c)))
    } else {
        None
    }
}

/// A heading in Markdown style: `## ` at the start of the line, white
/// space, optionally `[`, optionally `v`, a version token, optionally `]`.
/// Then the line ends, or white space, a dash and a text follow, or white
/// space and a date in round brackets. The text behind the dash, trimmed,
/// is the date.
pub open spec fn markdown_heading(line: Seq<char>) -> Option<Heading> {
    let a = spaces_end(line, 3);
    let c = skip(line, skip(line, a, '['), 'v');
    let k = token_end(line, c);
    let m = skip(line, k, ']');
    let j = spaces_end(line, m);
    if !has_at(line, 0, "## "@) || k <= c {
        None
    } else if m == line.len() {
        Some(Heading { version: line.subrange(c, k), date: None })
    } else if j < line.len() && is_dash(line[j]) && j + 1 < line.len() {
        Some(
            Heading {
                version: line.subrange(c, k),
                date: Some(trimmed(line.subrange(j + 1, line.len() as int))),
            },
        )
    } else if bracketed_date(line, j) is Some {
        Some(Heading { version: line.subrange(c, k), date: bracketed_date(line, j) })
    } else {
        None
    }
}

/// A heading in underlined style, which counts only where an underline
/// follows it: optionally `v`, a version token, white space, optionally a
/// date in round brackets, white space, and the end of the line.
pub open spec fn underlined_heading(line: Seq<char>) -> Option<Heading> {
    let c = skip(line, 0, 'v');
    let k = token_end(line, c);
    let j = spaces_end(line, k);
    if k <= c {
        None
    } else if j == line.len() {
        Some(Heading { version: line.subrange(c, k), date: None })
    } else if bracketed_date(line, j) is Some {
        Some(Heading { version: line.subrange(c, k), date: bracketed_date(line, j) })
    } else {
        None
    }
}

/// A character that underlines are made of.
pub open spec fn is_rule(c: char) -> bool {
    c == '-' || c == '=' || c == '~' || c == '^'
}

/// An underline: one of `-`, `=`, `~`, `^`, repeated, and nothing else.
pub open spec fn is_underline(line: Seq<char>) -> bool {
    line.len() > 0 && is_rule(line[0]) && forall|k: int|
        0 <= k < line.len() ==> #[trigger] line[k] == line[0]
}

/// Where the version token of a heading in plain style starts: behind `*`
/// and white space, behind `Version` and white space, behind `v`, or at the
/// start of the line.
pub open spec fn plain_start(line: Seq<char>) -> int {
    if line.len() > 0 && line[0] == '*' && spaces_end(line, 1) > 1 {
        spaces_end(line, 1)
    } else if has_at(line, 0, "Version"@) && spaces_end(line, 7) > 7 {
        spaces_end(line, 7)
    } else {
        skip(line, 0, 'v')
    }
}

/// A heading in plain style: an optional prefix, a version token, and then
/// either the end of the line or white space, `-` or `:`, and a text. The
/// text, trimmed, is the date.
pub open spec fn plain_heading(line: Seq<char>) -> Option<Heading> {
    let c = plain_start(line);
    let k = token_end(line, c);
    let j = spaces_end(line, k);
    if k <= c {
        None
    } else if k == line.len() {
        Some(Heading { version: line.subrange(c, k), date: None })
    } else if j < line.len() && (line[j] == '-' || line[j] == ':') && j + 1 < line.len() {
        Some(
            Heading {
                version: line.subrange(c, k),
                date: Some(trimmed(line.subrange(j + 1, line.len() as int))),
            },
        )
    } else {
        None
    }
}

/// A heading as the scanner hands it out.
pub struct HeadingScan {
    pub version: Vec<char>,
    pub date: Option<Vec<char>>,
}

/// The text of optional characters.
pub open spec fn chars_view(t: Option<Vec<char>>) -> Option<Seq<char>> {
    match t {
        Some(t) => Some(t@),
        None => None,
    }
}

impl View for HeadingScan {
    type V = Heading;

    open spec fn view(&self) -> Heading {
        Heading { version: self.version@, date: chars_view(self.date) }
    }
}

/// What a scanned heading stands for.
pub open spec fn heading_view(h: Option<HeadingScan>) -> Option<Heading> {
    match h {
        Some(h) => Some(h@),
        None => None,
    }
}

fn scan_bracketed_date(v: &Vec<char>, j: usize) -> (r: Option<Vec<char>>)
    requires
        j <= v.len(),
    ensures
        chars_view(r) == bracketed_date(v@, j as int),
{
    if j < v.len() && v[j] == '(' {
        let c = find_char(v, ')', j + 1);
        if j + 1 < c && c < v.len() {
            let e = scan_spaces(v, c + 1);
            if e == v.len() {
                let inner = slice_of(v, j + 1, c);
                return Some(trim(&inner));
            }
        }
    }
    None
}

fn dash(c: char) -> (r: bool)
    ensures
        r == is_dash(c),
{
    c == '-' || c == '\u{2013}' || c == '\u{2014}'
}

/// Reads a line as a heading in Markdown style.
pub fn scan_markdown_heading(line: &Vec<char>) -> (r: Option<HeadingScan>)
    ensures
        heading_view(r) == markdown_heading(line@),
{
    let marks = chars_of("## ");
    proof {
        reveal_strlit("## ");
    }
    if !matches_at(line, 0, &marks) {
        return None;
    }
    let a = scan_spaces(line, 3);
    let b = skip_char(line, a, '[');
    let c = skip_char(line, b, 'v');
    let k = scan_token(line, c);
    if k <= c {
        return None;
    }
    let m = skip_char(line, k, ']');
    let version = slice_of(line, c, k);
    if m == line.len() {
        return Some(HeadingScan { version, date: None });
    }
    let j = scan_spaces(line, m);
    if j < line.len() && dash(line[j]) && j + 1 < line.len() {
        let rest = slice_of(line, j + 1, line.len());
        return Some(HeadingScan { version, date: Some(trim(&rest)) });
    }
    match scan_bracketed_date(line, j) {
        Some(d) => Some(HeadingScan { version, date: Some(d) }),
        None => None,
    }
}

/// Reads a line as a heading in underlined style.
pub fn scan_underlined_heading(line: &Vec<char>) -> (r: Option<HeadingScan>)
    ensures
        heading_view(r) == underlined_heading(line@),
{
    let c = skip_char(line, 0, 'v');
    let k = scan_token(line, c);
    if k <= c {
        return None;
    }
    let version = slice_of(line, c, k);
    let j = scan_spaces(line, k);
    if j == line.len() {
        return Some(HeadingScan { version, date: None });
    }
    match scan_bracketed_date(line, j) {
        Some(d) => Some(HeadingScan { version, date: Some(d) }),
        None => None,
    }
}

/// Whether a line is an underline.
pub fn underline(line: &Vec<char>) -> (r: bool)
    ensures
        r == is_underline(line@),
{
    if line.len() == 0 {
        return false;
    }
    let c = line[0];
    if !(c == '-' || c == '=' || c == '~' || c == '^') {
        return false;
    }
    let mut i: usize = 0;
    while i < line.len()
        invariant
            i <= line.len(),
            c == line@[0],
            forall|k: int| 0 <= k < i ==> #[trigger] line@[k] == line@[0],
        decreases line.len() - i,
    {
        if line[i] != c {
            return false;
        }
        i += 1;
    }
    true
}

fn scan_plain_start(line: &Vec<char>) -> (r: usize)
    ensures
        r == plain_start(line@),
        r <= line.len(),
{
    if line.len() > 0 && line[0] == '*' {
        let e = scan_spaces(line, 1);
        if e > 1 {
            return e;
        }
    }
    let word = chars_of("Version");
    proof {
        reveal_strlit("Version");
    }
    if matches_at(line, 0, &word) {
        let e = scan_spaces(line, 7);
        if e > 7 {
            return e;
        }
    }
    skip_char(line, 0, 'v')
}

/// Reads a line as a heading in plain style.
pub fn scan_plain_heading(line: &Vec<char>) -> (r: Option<HeadingScan>)
    ensures
        heading_view(r) == plain_heading(line@),
{
    let c = scan_plain_start(line);
    let k = scan_token(line, c);
    if k <= c {
        return None;
    }
    let version = slice_of(line, c, k);
    if k == line.len() {
        return Some(HeadingScan { version, date: None });
    }
    let j = scan_spaces(line, k);
    if j < line.len() && (line[j] == '-' || line[j] == ':') && j + 1 < line.len() {
        let rest = slice_of(line, j + 1, line.len());
        return Some(HeadingScan { version, date: Some(trim(&rest)) });
    }
    None
}

/// One release section of a changelog.
#[derive(Debug, Clone)]
pub struct ChangelogEntry {
    pub version: String,
    pub date: Option<String>,
    pub content: String,
}

/// What a section stands for.
pub struct EntryView {
    pub version: Seq<char>,
    pub date: Option<Seq<char>>,
    pub content: Seq<char>,
}

/// The text of an optional string.
pub open spec fn string_view(t: Option<String>) -> Option<Seq<char>> {
    match t {
        Some(t) => Some(t@),
        None => None,
    }
}

impl View for ChangelogEntry {
    type V = EntryView;

    open spec fn view(&self) -> EntryView {
        EntryView { version: self.version@, date: string_view(self.date), content: self.content@ }
    }
}

/// What the sections stand for.
pub open spec fn entry_views(s: Seq<ChangelogEntry>) -> Seq<EntryView> {
    s.map_values(|e: ChangelogEntry| e@)
}

/// The section that is being gathered: its heading and the lines met so far,
/// each with a line feed behind it.
pub struct Open {
    pub version: Seq<char>,
    pub date: Option<Seq<char>>,
    pub body: Seq<char>,
}

/// The state of a pass over the lines of a document: the sections already
/// handed out, the section being gathered, if any, and whether lines are
/// being captured.
pub struct Scan {
    pub entries: Seq<EntryView>,
    pub open: Option<Open>,
    pub capturing: bool,
}

/// The state before the first line.
pub open spec fn start() -> Scan {
    Scan { entries: Seq::empty(), open: None, capturing: false }
}

/// The sections once the open one is closed: its body is trimmed, and it
/// is handed out unless the trimmed body is empty.
pub open spec fn closed(s: Scan) -> Seq<EntryView> {
    match s.open {
        Some(o) => if trimmed(o.body).len() > 0 {
            s.entries.push(
                EntryView { version: o.version, date: o.date, content: trimmed(o.body) },
            )
        } else {
            s.entries
        },
        None => s.entries,
    }
}

/// The state after a heading: the open section is closed. Where the
/// heading's version lies in the window, a new section opens and capturing
/// begins; where it lies at or below `old`, capturing stops; after a
/// heading above `new`, capturing is as it was, with no section open.
pub open spec fn at_heading(s: Scan, h: Heading, old: Seq<u32>, new: Seq<u32>) -> Scan {
    Scan {
        entries: closed(s),
        open: if in_window(version_numbers(h.version), old, new) {
            Some(Open { version: h.version, date: h.date, body: Seq::empty() })
        } else {
            None
        },
        capturing: if in_window(version_numbers(h.version), old, new) {
            true
        } else if numbers_order(version_numbers(h.version), old) <= 0 {
            false
        } else {
            s.capturing
        },
    }
}

/// The state after a line that is no heading: while capturing, the line
/// and a line feed go to the body of the open section, if there is one.
pub open spec fn at_line(s: Scan, line: Seq<char>) -> Scan {
    match s.open {
        Some(o) => if s.capturing {
            Scan {
                entries: s.entries,
                open: Some(
                    Open { version: o.version, date: o.date, body: o.body + line.push('\n') },
                ),
                capturing: s.capturing,
            }
        } else {
            s
        },
        None => s,
    }
}

/// The three heading styles.
#[derive(Debug, Clone, Copy, PartialEq, Eq, Structural)]
pub enum Style {
    Markdown,
    Underlined,
    Plain,
}

/// The state after the lines from `i` on, for the styles in which a heading
/// is one line.
pub open spec fn scan_lines(
    style: Style,
    lines: Seq<Seq<char>>,
    i: int,
    s: Scan,
    old: Seq<u32>,
    new: Seq<u32>,
) -> Scan
    decreases lines.len() - i,
{
    if i < 0 || i >= lines.len() {
        s
    } else {
        let h = if style == Style::Markdown {
            markdown_heading(lines[i])
        } else {
            plain_heading(lines[i])
        };
        scan_lines(
            style,
            lines,
            i + 1,
            match h {
                Some(h) => at_heading(s, h, old, new),
                None => at_line(s, lines[i]),
            },
            old,
            new,
        )
    }
}

/// The state after the lines from `i` on, for the underlined style: a
/// heading line counts only with an underline right below it, and the two
/// lines are taken together. Of the other lines, underlines are left out of
/// the sections.
pub open spec fn scan_underlined(
    lines: Seq<Seq<char>>,
    i: int,
    s: Scan,
    old: Seq<u32>,
    new: Seq<u32>,
) -> Scan
    decreases lines.len() - i,
{
    if i < 0 || i >= lines.len() {
        s
    } else if underlined_heading(lines[i]) is Some && i + 1 < lines.len() && is_underline(
        lines[i + 1],
    ) {
        scan_underlined(
            lines,
            i + 2,
            at_heading(s, underlined_heading(lines[i])->0, old, new),
            old,
            new,
        )
    } else if is_underline(lines[i]) {
        scan_underlined(lines, i + 1, s, old, new)
    } else {
        scan_underlined(lines, i + 1, at_line(s, lines[i]), old, new)
    }
}

/// The sections of `text` in the window above `old` and at or below `new`,
/// read in the given style, in the order of the document.
pub open spec fn entries_in(style: Style, text: Seq<char>, old: Seq<char>, new: Seq<char>) -> Seq<
    EntryView,
> {
    if style == Style::Underlined {
        closed(
            scan_underlined(
                lines_of(text),
                0,
                start(),
                version_numbers(old),
                version_numbers(new),
            ),
        )
    } else {
        closed(
            scan_lines(
                style,
                lines_of(text),
                0,
                start(),
                version_numbers(old),
                version_numbers(new),
            ),
        )
    }
}

/// The sections of `text` in the window: those that the first of the three
/// styles finds which finds any, Markdown before underlined before plain.
pub open spec fn changelog_entries(text: Seq<char>, old: Seq<char>, new: Seq<char>) -> Seq<
    EntryView,
> {
    if entries_in(Style::Markdown, text, old, new).len() > 0 {
        entries_in(Style::Markdown, text, old, new)
    } else if entries_in(Style::Underlined, text, old, new).len() > 0 {
        entries_in(Style::Underlined, text, old, new)
    } else {
        entries_in(Style::Plain, text, old, new)
    }
}

/// The section that a scanner is gathering.
pub struct OpenEntry {
    pub version: Vec<char>,
    pub date: Option<Vec<char>>,
    pub body: Vec<char>,
}

/// The state of a pass over the lines of a document.
pub struct Scanner {
    pub entries: Vec<ChangelogEntry>,
    pub open: Option<OpenEntry>,
    pub capturing: bool,
}

impl View for Scanner {
    type V = Scan;

    open spec fn view(&self) -> Scan {
        Scan {
            entries: entry_views(self.entries@),
            open: match self.open {
                Some(o) => Some(Open { version: o.version@, date: chars_view(o.date), body: o.body@ }),
                None => None,
            },
            capturing: self.capturing,
        }
    }
}

impl Scanner {
    /// The scanner before the first line.
    pub fn new() -> (r: Scanner)
        ensures
            r@ == start(),
    {
        let r = Scanner { entries: Vec::new(), open: None, capturing: false };
        assert(r@.entries =~= start().entries);
        r
    }

    /// Closes the open section and hands out all sections.
    pub fn close(self) -> (r: Vec<ChangelogEntry>)
        ensures
            entry_views(r@) == closed(self@),
    {
        let Scanner { entries, open, capturing: _ } = self;
        let mut entries = entries;
        match open {
            Some(o) => {
                let content = trim(&o.body);
                if content.len() > 0 {
                    let entry = ChangelogEntry {
                        version: string_of(&o.version),
                        date: match &o.date {
                            Some(d) => Some(string_of(d)),
                            None => None,
                        },
                        content: string_of(&content),
                    };
                    entries.push(entry);
                }
                entries
            },
            None => entries,
        }
    }

    /// The scanner after a heading.
    pub fn heading(self, h: HeadingScan, old: &Vec<u32>, new: &Vec<u32>) -> (r: Scanner)
        ensures
            r@ == at_heading(self@, h@, old@, new@),
    {
        let was_capturing = self.capturing;
        let entries = self.close();
        let c = numbers_of(&h.version);
        let above_old = compare_versions(c.as_slice(), old.as_slice()) > 0;
        let inside = above_old && compare_versions(c.as_slice(), new.as_slice()) <= 0;
        if inside {
            Scanner {
                entries,
                open: Some(OpenEntry { version: h.version, date: h.date, body: Vec::new() }),
                capturing: true,
            }
        } else if !above_old {
            Scanner { entries, open: None, capturing: false }
        } else {
            Scanner { entries, open: None, capturing: was_capturing }
        }
    }

    /// The scanner after a line that is no heading.
    pub fn line(self, line: &Vec<char>) -> (r: Scanner)
        ensures
            r@ == at_line(self@, line@),
    {
        let Scanner { entries, open, capturing } = self;
        match open {
            Some(o) => {
                let OpenEntry { version, date, body } = o;
                let mut body = body;
                if capturing {
                    crate::text::append_chars(&mut body, line);
                    body.push('\n');
                }
                Scanner { entries, open: Some(OpenEntry { version, date, body }), capturing }
            },
            None => Scanner { entries, open: None, capturing },
        }
    }
}

fn read_entries(style: Style, content: &str, old_version: &str, new_version: &str) -> (r: Vec<
    ChangelogEntry,
>)
    ensures
        entry_views(r@) == entries_in(style, content@, old_version@, new_version@),
{
    let text = chars_of(content);
    let all = lines(&text);
    let old = normalize_version(old_version);
    let new = normalize_version(new_version);
    let ghost l = lines_of(content@);
    let mut s = Scanner::new();
    let mut i: usize = 0;
    match style {
        Style::Underlined => {
            while i < all.len()
                invariant
                    i <= all.len(),
                    l == views(all@),
                    scan_underlined(l, 0, start(), old@, new@) == scan_underlined(
                        l,
                        i as int,
                        s@,
                        old@,
                        new@,
                    ),
                decreases all.len() - i,
            {
                let h = scan_underlined_heading(&all[i]);
                let ruled = if i + 1 < all.len() {
                    underline(&all[i + 1])
                } else {
                    false
                };
                match h {
                    Some(h) if ruled => {
                        s = s.heading(h, &old, &new);
                        i += 2;
                    },
                    _ => {
                        if !underline(&all[i]) {
                            s = s.line(&all[i]);
                        }
                        i += 1;
                    },
                }
            }
        },
        _ => {
            while i < all.len()
                invariant
                    i <= all.len(),
                    l == views(all@),
                    style != Style::Underlined,
                    scan_lines(style, l, 0, start(), old@, new@) == scan_lines(
                        style,
                        l,
                        i as int,
                        s@,
                        old@,
                        new@,
                    ),
                decreases all.len() - i,
            {
                let h = match style {
                    Style::Markdown => scan_markdown_heading(&all[i]),
                    _ => scan_plain_heading(&all[i]),
                };
                match h {
                    Some(h) => {
                        s = s.heading(h, &old, &new);
                    },
                    None => {
                        s = s.line(&all[i]);
                    },
                }
                i += 1;
            }
        },
    }
    s.close()
}

/// The sections that an outcome holds; none for no outcome.
pub open spec fn found(r: Option<Vec<ChangelogEntry>>) -> Seq<EntryView> {
    match r {
        Some(e) => entry_views(e@),
        None => Seq::empty(),
    }
}

fn some_if_any(entries: Vec<ChangelogEntry>) -> (r: Option<Vec<ChangelogEntry>>)
    ensures
        found(r) == entry_views(entries@),
        r is Some <==> entries@.len() > 0,
{
    if entries.len() == 0 {
        None
    } else {
        Some(entries)
    }
}

impl Style {
    /// The sections of a changelog that this style finds in the window;
    /// nothing where it finds none.
    pub fn try_segment(self, content: &str, old_version: &str, new_version: &str) -> (r: Option<
        Vec<ChangelogEntry>,
    >)
        ensures
            found(r) == entries_in(self, content@, old_version@, new_version@),
            r is Some <==> entries_in(self, content@, old_version@, new_version@).len() > 0,
    {
        some_if_any(read_entries(self, content, old_version, new_version))
    }
}

/// The sections of a changelog with Markdown headings that lie in the
/// window; nothing where there is none.
pub fn try_parse_markdown_changelog(content: &str, old_version: &str, new_version: &str) -> (r:
    Option<Vec<ChangelogEntry>>)
    ensures
        found(r) == entries_in(Style::Markdown, content@, old_version@, new_version@),
        r is Some <==> entries_in(Style::Markdown, content@, old_version@, new_version@).len() > 0,
{
    Style::Markdown.try_segment(content, old_version, new_version)
}

/// The sections of a changelog with underlined headings that lie in the
/// window; nothing where there is none.
pub fn try_parse_rst_changelog(content: &str, old_version: &str, new_version: &str) -> (r: Option<
    Vec<ChangelogEntry>,
>)
    ensures
        found(r) == entries_in(Style::Underlined, content@, old_version@, new_version@),
        r is Some <==> entries_in(Style::Underlined, content@, old_version@, new_version@).len()
            > 0,
{
    Style::Underlined.try_segment(content, old_version, new_version)
}

/// The sections of a changelog with plain headings that lie in the window;
/// nothing where there is none.
pub fn try_parse_generic_changelog(content: &str, old_version: &str, new_version: &str) -> (r:
    Option<Vec<ChangelogEntry>>)
    ensures
        found(r) == entries_in(Style::Plain, content@, old_version@, new_version@),
        r is Some <==> entries_in(Style::Plain, content@, old_version@, new_version@).len() > 0,
{
    Style::Plain.try_segment(content, old_version, new_version)
}

/// The sections of a changelog that lie in the window, in whichever of the
/// three styles finds any; no section is no failure.
pub fn parse_changelog(content: &str, old_version: &str, new_version: &str) -> (r: Vec<
    ChangelogEntry,
>)
    ensures
        entry_views(r@) == changelog_entries(content@, old_version@, new_version@),
{
    if let Some(parsed) = try_parse_markdown_changelog(content, old_version, new_version) {
        return parsed;
    }
    if let Some(parsed) = try_parse_rst_changelog(content, old_version, new_version) {
        return parsed;
    }
    if let Some(parsed) = try_parse_generic_changelog(content, old_version, new_version) {
        return parsed;
    }
    let r: Vec<ChangelogEntry> = Vec::new();
    r
}

/// The entries of `document` between two versions: above `old_version` and
/// at or below `new_version`, in the order of the document.
pub fn select_entries(document: &str, old_version: &str, new_version: &str) -> (r: Vec<
    ChangelogEntry,
>)
    ensures
        entry_views(r@) == changelog_entries(document@, old_version@, new_version@),
{
    parse_changelog(document, old_version, new_version)
}

} // verus!
