//! The versions file: sections in square brackets, and in the sections
//! whose name begins with `versions` one pin per line, `name = version`.

use crate::error::ReleaserError;
use crate::text::{
    append_chars, chars_of, find_char, has_at, index_of, is_digit, is_letter, is_space, lines,
    lines_of, matches_at, same_chars, scan_spaces, slice_of, spaces_end, string_of, trim, trimmed,
    views,
};
use vstd::prelude::*;

verus! {

/// A version that changed: the package, what it was pinned to, and what it
/// is pinned to now.
#[derive(Debug, Clone)]
pub struct VersionUpdate {
    pub package_name: String,
    pub old_version: String,
    pub new_version: String,
}

/// One pin: a package, its version, and the number of the line that pins it.
#[derive(Debug, Clone)]
pub struct Pin {
    pub name: Vec<char>,
    pub version: Vec<char>,
    pub line: usize,
}

/// What a pin stands for.
pub struct PinView {
    pub name: Seq<char>,
    pub version: Seq<char>,
    pub line: nat,
}

impl View for Pin {
    type V = PinView;

    open spec fn view(&self) -> PinView {
        PinView { name: self.name@, version: self.version@, line: self.line as nat }
    }
}

/// What the pins stand for.
pub open spec fn pin_views(s: Seq<Pin>) -> Seq<PinView> {
    s.map_values(|p: Pin| p@)
}

/// What one more pin adds to what the pins stand for.
pub proof fn lemma_pin_views_push(s: Seq<Pin>, p: Pin)
    ensures
        pin_views(s.push(p)) == pin_views(s).push(p@),
{
}

/// What a pin in place of another changes in what the pins stand for.
pub proof fn lemma_pin_views_update(s: Seq<Pin>, k: int, p: Pin)
    requires
        0 <= k < s.len(),
    ensures
        pin_views(s.update(k, p)) == pin_views(s).update(k, p@),
{
}

/// The first position at or after `i` of a pin of `name`, or the number of
/// pins where there is none.
pub open spec fn position(pins: Seq<PinView>, name: Seq<char>, i: int) -> int
    decreases pins.len() - i,
{
    if 0 <= i < pins.len() && pins[i].name != name {
        position(pins, name, i + 1)
    } else {
        i
    }
}

/// Where a name is found: no pin before that position has the name, and the
/// pin at it has.
pub proof fn lemma_position_bounds(pins: Seq<PinView>, name: Seq<char>, i: int)
    requires
        0 <= i <= pins.len(),
    ensures
        i <= position(pins, name, i) <= pins.len(),
        forall|k: int| i <= k < position(pins, name, i) ==> (#[trigger] pins[k]).name != name,
        position(pins, name, i) < pins.len() ==> pins[position(pins, name, i)].name == name,
    decreases pins.len() - i,
{
    if i < pins.len() && pins[i].name != name {
        lemma_position_bounds(pins, name, i + 1);
    }
}

/// The version that `name` is pinned to, if it is pinned.
pub open spec fn pinned(pins: Seq<PinView>, name: Seq<char>) -> Option<Seq<char>> {
    if position(pins, name, 0) < pins.len() {
        Some(pins[position(pins, name, 0)].version)
    } else {
        None
    }
}

/// Whether no package is pinned twice.
pub open spec fn distinct_pins(pins: Seq<PinView>) -> bool {
    forall|i: int, j: int|
        0 <= i < j < pins.len() ==> (#[trigger] pins[i]).name != (#[trigger] pins[j]).name
}

/// The pins after `pin` is put among them: it takes the place of the pin of
/// the same name, or comes last where there is none.
pub open spec fn put(pins: Seq<PinView>, pin: PinView) -> Seq<PinView> {
    if position(pins, pin.name, 0) < pins.len() {
        pins.update(position(pins, pin.name, 0), pin)
    } else {
        pins.push(pin)
    }
}

/// Putting a pin among pins of which none is pinned twice leaves none
/// pinned twice.
pub proof fn lemma_put_distinct(pins: Seq<PinView>, pin: PinView)
    requires
        distinct_pins(pins),
    ensures
        distinct_pins(put(pins, pin)),
{
    lemma_position_bounds(pins, pin.name, 0);
    let k = position(pins, pin.name, 0);
    let after = put(pins, pin);
    assert forall|i: int, j: int| 0 <= i < j < after.len() implies (#[trigger] after[i]).name != (
    #[trigger] after[j]).name by {
    }
}

/// A character of a package name.
pub open spec fn is_name_char(c: char) -> bool {
    is_letter(c) || is_digit(c) || c == '.' || c == '_' || c == '-'
}

/// The end of the longest run of name characters that starts at `i`.
pub open spec fn name_end(s: Seq<char>, i: int) -> int
    decreases s.len() - i,
{
    if 0 <= i < s.len() && is_name_char(s[i]) {
        name_end(s, i + 1)
    } else {
        i
    }
}

/// The end of the longest run, starting at `i`, of characters that are
/// neither white space nor `#`.
pub open spec fn value_end(s: Seq<char>, i: int) -> int
    decreases s.len() - i,
{
    if 0 <= i < s.len() && !is_space(s[i]) && s[i] != '#' {
        value_end(s, i + 1)
    } else {
        i
    }
}

/// The name of the section that a line opens: white space, `[`, a name that
/// is not empty and holds no `]`, `]`, white space, and nothing more.
pub open spec fn section_of(line: Seq<char>) -> Option<Seq<char>> {
    let a = spaces_end(line, 0);
    let c = index_of(line, ']', a + 1);
    if a < line.len() && line[a] == '[' && a + 1 < c && c < line.len() && spaces_end(line, c + 1)
        == line.len() {
        Some(line.subrange(a + 1, c))
    } else {
        None
    }
}

/// The pin that a line holds: white space, a name, white space, `=`, white
/// space, and a version that runs up to the next white space or `#`.
pub open spec fn pin_of(line: Seq<char>) -> Option<(Seq<char>, Seq<char>)> {
    let a = spaces_end(line, 0);
    let n = name_end(line, a);
    let b = spaces_end(line, n);
    let c = spaces_end(line, b + 1);
    let e = value_end(line, c);
    if n > a && b < line.len() && line[b] == '=' && e > c {
        Some((line.subrange(a, n), line.subrange(c, e)))
    } else {
        None
    }
}

/// Whether a line is passed over: it is blank or a comment.
pub open spec fn is_skipped(line: Seq<char>) -> bool {
    trimmed(line).len() == 0 || trimmed(line)[0] == '#'
}

/// The pins after the lines from `i` on, where `pins` were found before and
/// `inside` says whether line `i` stands in a section of versions. A later
/// pin of a package replaces an earlier one.
pub open spec fn scan_pins(lines: Seq<Seq<char>>, i: int, pins: Seq<PinView>, inside: bool) -> Seq<
    PinView,
>
    decreases lines.len() - i,
{
    if i < 0 || i >= lines.len() {
        pins
    } else if is_skipped(lines[i]) {
        scan_pins(lines, i + 1, pins, inside)
    } else if section_of(lines[i]) is Some {
        scan_pins(lines, i + 1, pins, has_at(section_of(lines[i])->0, 0, "versions"@))
    } else if inside && pin_of(lines[i]) is Some {
        let (name, version) = pin_of(lines[i])->0;
        scan_pins(lines, i + 1, put(pins, PinView { name, version, line: i as nat }), inside)
    } else {
        scan_pins(lines, i + 1, pins, inside)
    }
}

/// The pins of a versions file.
pub open spec fn pins_of(content: Seq<char>) -> Seq<PinView> {
    scan_pins(lines_of(content), 0, Seq::empty(), false)
}

fn name_char(c: char) -> (r: bool)
    ensures
        r == is_name_char(c),
{
    ('a' <= c && c <= 'z') || ('A' <= c && c <= 'Z') || ('0' <= c && c <= '9') || c == '.' || c
        == '_' || c == '-'
}

fn scan_name(v: &Vec<char>, i: usize) -> (e: usize)
    requires
        i <= v.len(),
    ensures
        e == name_end(v@, i as int),
        i <= e <= v.len(),
{
    let mut j: usize = i;
    while j < v.len() && name_char(v[j])
        invariant
            i <= j <= v.len(),
            name_end(v@, i as int) == name_end(v@, j as int),
        decreases v.len() - j,
    {
        j += 1;
    }
    j
}

fn scan_value(v: &Vec<char>, i: usize) -> (e: usize)
    requires
        i <= v.len(),
    ensures
        e == value_end(v@, i as int),
        i <= e <= v.len(),
{
    let mut j: usize = i;
    while j < v.len() && !crate::text::space(v[j]) && v[j] != '#'
        invariant
            i <= j <= v.len(),
            value_end(v@, i as int) == value_end(v@, j as int),
        decreases v.len() - j,
    {
        j += 1;
    }
    j
}

fn read_section(line: &Vec<char>) -> (r: Option<Vec<char>>)
    ensures
        crate::changelog::chars_view(r) == section_of(line@),
{
    let a = scan_spaces(line, 0);
    if a < line.len() && line[a] == '[' {
        let c = find_char(line, ']', a + 1);
        if a + 1 < c && c < line.len() {
            let e = scan_spaces(line, c + 1);
            if e == line.len() {
                return Some(slice_of(line, a + 1, c));
            }
        }
    }
    None
}

/// What a name with its version stands for.
pub open spec fn pair_view(r: Option<(Vec<char>, Vec<char>)>) -> Option<(Seq<char>, Seq<char>)> {
    match r {
        Some(p) => Some((p.0@, p.1@)),
        None => None,
    }
}

fn read_pin(line: &Vec<char>) -> (r: Option<(Vec<char>, Vec<char>)>)
    ensures
        pair_view(r) == pin_of(line@),
{
    let a = scan_spaces(line, 0);
    let n = scan_name(line, a);
    if n <= a {
        return None;
    }
    let b = scan_spaces(line, n);
    if b < line.len() && line[b] == '=' {
        let c = scan_spaces(line, b + 1);
        let e = scan_value(line, c);
        if e > c {
            return Some((slice_of(line, a, n), slice_of(line, c, e)));
        }
    }
    None
}

fn skipped(line: &Vec<char>) -> (r: bool)
    ensures
        r == is_skipped(line@),
{
    let t = trim(line);
    t.len() == 0 || t[0] == '#'
}

fn find_pin(pins: &Vec<Pin>, name: &Vec<char>) -> (k: usize)
    ensures
        k == position(pin_views(pins@), name@, 0),
        k <= pins.len(),
{
    let mut k: usize = 0;
    while k < pins.len() && !same_chars(&pins[k].name, name)
        invariant
            k <= pins.len(),
            position(pin_views(pins@), name@, 0) == position(pin_views(pins@), name@, k as int),
        decreases pins.len() - k,
    {
        k += 1;
    }
    k
}

fn put_pin(pins: &mut Vec<Pin>, pin: Pin)
    ensures
        pin_views(final(pins)@) == put(pin_views(old(pins)@), pin@),
        distinct_pins(pin_views(old(pins)@)) ==> distinct_pins(pin_views(final(pins)@)),
{
    proof {
        if distinct_pins(pin_views(pins@)) {
            lemma_put_distinct(pin_views(pins@), pin@);
        }
    }
    let k = find_pin(pins, &pin.name);
    if k < pins.len() {
        proof {
            lemma_pin_views_update(pins@, k as int, pin);
        }
        pins.set(k, pin);
    } else {
        proof {
            lemma_pin_views_push(pins@, pin);
        }
        pins.push(pin);
    }
}

fn copy_pin(pin: &Pin) -> (r: Pin)
    ensures
        r@ == pin@,
{
    let name = slice_of(&pin.name, 0, pin.name.len());
    let version = slice_of(&pin.version, 0, pin.version.len());
    assert(name@ =~= pin.name@);
    assert(version@ =~= pin.version@);
    Pin { name, version, line: pin.line }
}

/// A copy of the pins with `extra` behind them.
fn pins_with(pins: &Vec<Pin>, extra: Pin) -> (r: Vec<Pin>)
    ensures
        pin_views(r@) == pin_views(pins@).push(extra@),
{
    let mut r: Vec<Pin> = Vec::new();
    let mut i: usize = 0;
    while i < pins.len()
        invariant
            i <= pins.len(),
            pin_views(r@) == pin_views(pins@).take(i as int),
        decreases pins.len() - i,
    {
        let c = copy_pin(&pins[i]);
        proof {
            lemma_pin_views_push(r@, c);
        }
        r.push(c);
        i += 1;
    }
    assert(pin_views(pins@).take(pins.len() as int) =~= pin_views(pins@));
    r.push(extra);
    r
}

/// A copy of the pins with `pin` in place of the pin at `k`.
fn pins_with_at(pins: &Vec<Pin>, k: usize, pin: Pin) -> (r: Vec<Pin>)
    requires
        k < pins.len(),
    ensures
        pin_views(r@) == pin_views(pins@).update(k as int, pin@),
{
    let mut r: Vec<Pin> = Vec::new();
    let mut i: usize = 0;
    while i < pins.len()
        invariant
            i <= pins.len(),
            pin_views(r@) == pin_views(pins@).take(i as int),
        decreases pins.len() - i,
    {
        let c = copy_pin(&pins[i]);
        proof {
            lemma_pin_views_push(r@, c);
        }
        r.push(c);
        i += 1;
    }
    assert(pin_views(pins@).take(pins.len() as int) =~= pin_views(pins@));
    r.set(k, pin);
    r
}

/// Reads the pins of a versions file.
pub fn parse_versions(content: &str) -> (r: Vec<Pin>)
    ensures
        pin_views(r@) == pins_of(content@),
        distinct_pins(pin_views(r@)),
{
    let text = chars_of(content);
    let all = lines(&text);
    let ghost l = lines_of(content@);
    let mut pins: Vec<Pin> = Vec::new();
    let mut inside = false;
    let mut i: usize = 0;
    assert(pin_views(pins@) =~= Seq::empty());
    while i < all.len()
        invariant
            i <= all.len(),
            l == views(all@),
            pins_of(content@) == scan_pins(l, i as int, pin_views(pins@), inside),
            distinct_pins(pin_views(pins@)),
        decreases all.len() - i,
    {
        if !skipped(&all[i]) {
            match read_section(&all[i]) {
                Some(section) => {
                    let word = chars_of("versions");
                    inside = matches_at(&section, 0, &word);
                },
                None => {
                    if inside {
                        match read_pin(&all[i]) {
                            Some((name, version)) => {
                                put_pin(&mut pins, Pin { name, version, line: i });
                            },
                            None => {},
                        }
                    }
                },
            }
        }
        i += 1;
    }
    pins
}

/// A versions file: its text as it stands, the pins read from it, and the
/// path it came from. No package is pinned twice among the pins.
#[derive(Debug)]
pub struct BuildoutVersions {
    content: String,
    versions: Vec<Pin>,
    path: String,
}

/// What a versions file stands for.
pub struct BuildoutView {
    pub content: Seq<char>,
    pub pins: Seq<PinView>,
    pub path: Seq<char>,
}

impl View for BuildoutVersions {
    type V = BuildoutView;

    closed spec fn view(&self) -> BuildoutView {
        BuildoutView { content: self.content@, pins: pin_views(self.versions@), path: self.path@ }
    }
}

/// The name and the version of each pin.
pub open spec fn pairs_of(pins: Seq<PinView>) -> Seq<(Seq<char>, Seq<char>)> {
    pins.map_values(|p: PinView| (p.name, p.version))
}

/// What the names with their versions stand for.
pub open spec fn pair_views(s: Seq<(String, String)>) -> Seq<(Seq<char>, Seq<char>)> {
    s.map_values(|p: (String, String)| (p.0@, p.1@))
}

impl BuildoutVersions {
    #[verifier::type_invariant]
    spec fn no_package_twice(self) -> bool {
        distinct_pins(pin_views(self.versions@))
    }

    /// The versions file with the given text.
    pub fn from_content(content: String, path: String) -> (r: Result<
        BuildoutVersions,
        ReleaserError,
    >)
        ensures
            r matches Ok(b) && b@ == (BuildoutView {
                content: content@,
                pins: pins_of(content@),
                path: path@,
            }),
            distinct_pins(pins_of(content@)),
    {
        let versions = parse_versions(content.as_str());
        Ok(BuildoutVersions { content, versions, path })
    }

    /// The version that a package is pinned to, if it is pinned.
    pub fn get_version(&self, package_name: &str) -> (r: Option<String>)
        ensures
            crate::config::opt_view(r) == pinned(self@.pins, package_name@),
    {
        let name = chars_of(package_name);
        let k = find_pin(&self.versions, &name);
        if k < self.versions.len() {
            Some(string_of(&self.versions[k].version))
        } else {
            None
        }
    }

    /// Every pinned package with its version, in the order of the first pin
    /// of each. No package comes twice.
    pub fn get_all_versions(&self) -> (r: Vec<(String, String)>)
        ensures
            pair_views(r@) == pairs_of(self@.pins),
            distinct_pins(self@.pins),
    {
        proof {
            use_type_invariant(self);
        }
        let mut r: Vec<(String, String)> = Vec::new();
        let mut i: usize = 0;
        while i < self.versions.len()
            invariant
                i <= self.versions.len(),
                pair_views(r@) == pairs_of(pin_views(self.versions@)).take(i as int),
            decreases self.versions.len() - i,
        {
            let p = (string_of(&self.versions[i].name), string_of(&self.versions[i].version));
            proof {
                assert(pair_views(r@.push(p)) =~= pair_views(r@).push((p.0@, p.1@)));
            }
            r.push(p);
            i += 1;
        }
        r
    }

    /// The text of the file as it stands.
    pub fn content(&self) -> (r: &str)
        ensures
            r@ == self@.content,
    {
        self.content.as_str()
    }

    /// The path that the file came from.
    pub fn path(&self) -> (r: &str)
        ensures
            r@ == self@.path,
    {
        self.path.as_str()
    }
}

impl Clone for BuildoutVersions {
    fn clone(&self) -> (r: BuildoutVersions)
        ensures
            r@ == self@,
    {
        proof {
            use_type_invariant(self);
        }
        let mut versions: Vec<Pin> = Vec::new();
        let mut i: usize = 0;
        while i < self.versions.len()
            invariant
                i <= self.versions.len(),
                pin_views(versions@) == pin_views(self.versions@).take(i as int),
            decreases self.versions.len() - i,
        {
            let c = copy_pin(&self.versions[i]);
            proof {
                lemma_pin_views_push(versions@, c);
            }
            versions.push(c);
            i += 1;
        }
        assert(pin_views(self.versions@).take(self.versions.len() as int) =~= pin_views(
            self.versions@,
        ));
        BuildoutVersions { content: self.content.clone(), versions, path: self.path.clone() }
    }
}

/// The start of the line that follows the line which holds position `i`,
/// or nothing where that line is the last.
pub open spec fn next_line(s: Seq<char>, i: int) -> Option<int> {
    if 0 <= i <= index_of(s, '\n', i) && index_of(s, '\n', i) < s.len() {
        Some(index_of(s, '\n', i) + 1)
    } else {
        None
    }
}

/// Where the version of a pin stands, for the pin of `name` to `version`
/// that begins in the line at `i`: white space, the name, white space, `=`,
/// white space, the version, and then nothing but white space up to the end
/// of the line or up to a comment.
pub open spec fn pin_spot(s: Seq<char>, i: int, name: Seq<char>, version: Seq<char>) -> Option<
    int,
> {
    let a = spaces_end(s, i);
    let b = spaces_end(s, a + name.len());
    let c = spaces_end(s, b + 1);
    let d = c + version.len();
    let e = spaces_end(s, d);
    if has_at(s, a, name) && b < s.len() && s[b] == '=' && has_at(s, c, version) && (e >= s.len()
        || s[e] == '#' || index_of(s, '\n', d) < e) {
        Some(c)
    } else {
        None
    }
}

/// Where the version of the first pin of `name` to `version` stands, looked
/// for line by line from the line at `i` on.
pub open spec fn first_spot(s: Seq<char>, i: int, name: Seq<char>, version: Seq<char>) -> Option<
    int,
>
    decreases s.len() - i,
{
    if i < 0 || i > s.len() {
        None
    } else if pin_spot(s, i, name, version) is Some {
        pin_spot(s, i, name, version)
    } else {
        match next_line(s, i) {
            Some(n) => first_spot(s, n, name, version),
            None => None,
        }
    }
}

/// The text with `new` in place of `old` in the first pin of `name` to
/// `old`; the text as it is where there is no such pin.
pub open spec fn repinned(s: Seq<char>, name: Seq<char>, old: Seq<char>, new: Seq<char>) -> Seq<
    char,
> {
    match first_spot(s, 0, name, old) {
        Some(c) => s.subrange(0, c) + new + s.subrange(c + old.len(), s.len() as int),
        None => s,
    }
}

/// The line that begins at `i`, without its line feed.
pub open spec fn line_at(s: Seq<char>, i: int) -> Seq<char> {
    s.subrange(i, index_of(s, '\n', i))
}

/// Whether the line at `i` opens a section of versions.
pub open spec fn is_versions_header(s: Seq<char>, i: int) -> bool {
    section_of(line_at(s, i)) is Some && has_at(section_of(line_at(s, i))->0, 0, "versions"@)
}

/// The start of the first line at or after `i` that opens a section of
/// versions.
pub open spec fn versions_header(s: Seq<char>, i: int) -> Option<int>
    decreases s.len() - i,
{
    if i < 0 || i > s.len() {
        None
    } else if is_versions_header(s, i) {
        Some(i)
    } else {
        match next_line(s, i) {
            Some(n) => versions_header(s, n),
            None => None,
        }
    }
}

/// Where a new pin goes, looked for from the line at `i` on: before the
/// first line that opens a section, and before the blank lines right above
/// it, of which `run` is the first; at the end where no section follows.
pub open spec fn pin_place(s: Seq<char>, i: int, run: Option<int>) -> int
    decreases s.len() - i,
{
    if i < 0 || i >= s.len() {
        s.len() as int
    } else if section_of(line_at(s, i)) is Some {
        match run {
            Some(r) => r,
            None => i,
        }
    } else {
        match next_line(s, i) {
            Some(n) => pin_place(
                s,
                n,
                if crate::config::is_blank(line_at(s, i)) {
                    if run is Some {
                        run
                    } else {
                        Some(i)
                    }
                } else {
                    None
                },
            ),
            None => s.len() as int,
        }
    }
}

/// The line that pins `name` to `version`.
pub open spec fn pin_line(name: Seq<char>, version: Seq<char>) -> Seq<char> {
    name + " = "@ + version + "\n"@
}

/// The text with a pin of `name` to `version` at the end of the first
/// section of versions, whose header is the line at `h`.
pub open spec fn with_pin(s: Seq<char>, h: int, name: Seq<char>, version: Seq<char>) -> Seq<char> {
    let p = match next_line(s, h) {
        Some(n) => pin_place(s, n, None),
        None => s.len() as int,
    };
    s.subrange(0, p) + pin_line(name, version) + s.subrange(p, s.len() as int)
}

/// A position as a number.
pub open spec fn int_view(r: Option<usize>) -> Option<int> {
    match r {
        Some(x) => Some(x as int),
        None => None,
    }
}

fn find_next_line(v: &Vec<char>, i: usize) -> (r: Option<usize>)
    requires
        i <= v.len(),
    ensures
        int_view(r) == next_line(v@, i as int),
        r matches Some(n) ==> i < n <= v.len(),
{
    let e = find_char(v, '\n', i);
    if e < v.len() {
        Some(e + 1)
    } else {
        None
    }
}

fn find_pin_spot(v: &Vec<char>, i: usize, name: &Vec<char>, version: &Vec<char>) -> (r: Option<
    usize,
>)
    requires
        i <= v.len(),
    ensures
        int_view(r) == pin_spot(v@, i as int, name@, version@),
        r matches Some(c) ==> c + version.len() <= v.len(),
{
    let a = scan_spaces(v, i);
    if !matches_at(v, a, name) {
        return None;
    }
    let b = scan_spaces(v, a + name.len());
    if !(b < v.len() && v[b] == '=') {
        return None;
    }
    let c = scan_spaces(v, b + 1);
    if !matches_at(v, c, version) {
        return None;
    }
    let d = c + version.len();
    let e = scan_spaces(v, d);
    if e >= v.len() || v[e] == '#' || find_char(v, '\n', d) < e {
        Some(c)
    } else {
        None
    }
}

fn find_first_spot(v: &Vec<char>, name: &Vec<char>, version: &Vec<char>) -> (r: Option<usize>)
    ensures
        int_view(r) == first_spot(v@, 0, name@, version@),
        r matches Some(c) ==> c + version.len() <= v.len(),
{
    let mut i: usize = 0;
    loop
        invariant
            i <= v.len(),
            first_spot(v@, 0, name@, version@) == first_spot(v@, i as int, name@, version@),
        decreases v.len() - i,
    {
        let here = find_pin_spot(v, i, name, version);
        if here.is_some() {
            return here;
        }
        match find_next_line(v, i) {
            Some(n) => {
                i = n;
            },
            None => {
                return None;
            },
        }
    }
}

fn read_line_at(v: &Vec<char>, i: usize) -> (r: Vec<char>)
    requires
        i <= v.len(),
    ensures
        r@ == line_at(v@, i as int),
{
    let e = find_char(v, '\n', i);
    slice_of(v, i, e)
}

fn find_versions_header(v: &Vec<char>) -> (r: Option<usize>)
    ensures
        int_view(r) == versions_header(v@, 0),
        r matches Some(h) ==> h <= v.len(),
{
    let word = chars_of("versions");
    let mut i: usize = 0;
    loop
        invariant
            i <= v.len(),
            word@ == "versions"@,
            versions_header(v@, 0) == versions_header(v@, i as int),
        decreases v.len() - i,
    {
        let line = read_line_at(v, i);
        match read_section(&line) {
            Some(section) => {
                if matches_at(&section, 0, &word) {
                    return Some(i);
                }
            },
            None => {},
        }
        match find_next_line(v, i) {
            Some(n) => {
                i = n;
            },
            None => {
                return None;
            },
        }
    }
}

fn find_pin_place(v: &Vec<char>, from: usize) -> (r: usize)
    requires
        from <= v.len(),
    ensures
        r == pin_place(v@, from as int, None),
        r <= v.len(),
{
    let mut run: Option<usize> = None;
    let mut i: usize = from;
    while i < v.len()
        invariant
            i <= v.len(),
            run matches Some(x) ==> x <= v.len(),
            pin_place(v@, from as int, None) == pin_place(v@, i as int, int_view(run)),
        decreases v.len() - i,
    {
        let line = read_line_at(v, i);
        if read_section(&line).is_some() {
            return match run {
                Some(x) => x,
                None => i,
            };
        }
        let empty = scan_spaces(&line, 0) >= line.len();
        match find_next_line(v, i) {
            Some(n) => {
                if empty {
                    if run.is_none() {
                        run = Some(i);
                    }
                } else {
                    run = None;
                }
                i = n;
            },
            None => {
                return v.len();
            },
        }
    }
    v.len()
}

/// What an update does to a versions file: nothing where the package is
/// not pinned or is pinned to the new version already; else the first pin
/// of the package to its old version is rewritten in the text, and the pin
/// read from the file holds the new version.
pub open spec fn updated(b: BuildoutView, name: Seq<char>, new: Seq<char>) -> BuildoutView {
    match pinned(b.pins, name) {
        None => b,
        Some(old) => if old == new {
            b
        } else {
            BuildoutView {
                content: repinned(b.content, name, old, new),
                pins: b.pins.update(
                    position(b.pins, name, 0),
                    PinView { version: new, ..b.pins[position(b.pins, name, 0)] },
                ),
                path: b.path,
            }
        },
    }
}

/// The change that an update makes, if it makes one.
pub open spec fn change(b: BuildoutView, name: Seq<char>, new: Seq<char>) -> Option<
    (Seq<char>, Seq<char>, Seq<char>),
> {
    match pinned(b.pins, name) {
        None => None,
        Some(old) => if old == new {
            None
        } else {
            Some((name, old, new))
        },
    }
}

/// What a reported change stands for: package, old version, new version.
pub open spec fn update_view(u: Option<VersionUpdate>) -> Option<(Seq<char>, Seq<char>, Seq<char>)> {
    match u {
        Some(u) => Some((u.package_name@, u.old_version@, u.new_version@)),
        None => None,
    }
}

impl BuildoutVersions {
    /// Pins a package to a new version and says what changed, if anything
    /// did.
    pub fn update_version(&mut self, package_name: &str, new_version: &str) -> (r: Result<
        Option<VersionUpdate>,
        ReleaserError,
    >)
        ensures
            final(self)@ == updated(old(self)@, package_name@, new_version@),
            r matches Ok(u) && update_view(u) == change(old(self)@, package_name@, new_version@),
    {
        proof {
            use_type_invariant(&*self);
        }
        let name = chars_of(package_name);
        let new = chars_of(new_version);
        let k = find_pin(&self.versions, &name);
        if k >= self.versions.len() {
            return Ok(None);
        }
        let old_version = slice_of(&self.versions[k].version, 0, self.versions[k].version.len());
        assert(old_version@ =~= self.versions@[k as int].version@);
        if same_chars(&old_version, &new) {
            return Ok(None);
        }
        let text = chars_of(self.content.as_str());
        match find_first_spot(&text, &name, &old_version) {
            Some(c) => {
                let mut out = slice_of(&text, 0, c);
                append_chars(&mut out, &new);
                let rest = slice_of(&text, c + old_version.len(), text.len());
                append_chars(&mut out, &rest);
                self.content = string_of(&out);
            },
            None => {},
        }
        let line = self.versions[k].line;
        let pin = Pin { name: slice_of(&name, 0, name.len()), version: new, line };
        proof {
            assert(pin.name@ =~= name@);
            lemma_position_bounds(pin_views(self.versions@), name@, 0);
        }
        self.versions = pins_with_at(&self.versions, k, pin);
        Ok(
            Some(
                VersionUpdate {
                    package_name: package_name.to_owned(),
                    old_version: string_of(&old_version),
                    new_version: new_version.to_owned(),
                },
            ),
        )
    }

    /// Pins a package that is not pinned yet, at the end of the first
    /// section of versions, and says whether it did. A file without a
    /// section of versions cannot take the pin.
    pub fn add_version(&mut self, package_name: &str, version: &str) -> (r: Result<
        bool,
        ReleaserError,
    >)
        ensures
            match (pinned(old(self)@.pins, package_name@), versions_header(old(self)@.content, 0)) {
                (Some(_), _) => r matches Ok(false) && final(self)@ == old(self)@,
                (None, None) => r matches Err(ReleaserError::BuildoutParseError(m)) && m@
                    == "Could not find [versions] section"@ && final(self)@ == old(self)@,
                (None, Some(h)) => r matches Ok(true) && final(self)@ == (BuildoutView {
                    content: with_pin(old(self)@.content, h, package_name@, version@),
                    pins: old(self)@.pins.push(
                        PinView { name: package_name@, version: version@, line: 0 },
                    ),
                    path: old(self)@.path,
                }),
            },
    {
        proof {
            use_type_invariant(&*self);
        }
        let name = chars_of(package_name);
        let k = find_pin(&self.versions, &name);
        if k < self.versions.len() {
            return Ok(false);
        }
        let text = chars_of(self.content.as_str());
        match find_versions_header(&text) {
            None => Err(
                ReleaserError::BuildoutParseError("Could not find [versions] section".to_owned()),
            ),
            Some(h) => {
                let p = match find_next_line(&text, h) {
                    Some(n) => find_pin_place(&text, n),
                    None => text.len(),
                };
                let mut out = slice_of(&text, 0, p);
                append_chars(&mut out, &name);
                crate::text::append_str(&mut out, " = ");
                crate::text::append_str(&mut out, version);
                crate::text::append_str(&mut out, "\n");
                let rest = slice_of(&text, p, text.len());
                append_chars(&mut out, &rest);
                assert(out@ =~= with_pin(text@, h as int, package_name@, version@));
                self.content = string_of(&out);
                let pin = Pin { name, version: chars_of(version), line: 0 };
                proof {
                    lemma_position_bounds(pin_views(self.versions@), name@, 0);
                }
                self.versions = pins_with(&self.versions, pin);
                Ok(true)
            },
        }
    }
}

} // verus!
