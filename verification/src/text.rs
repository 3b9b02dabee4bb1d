//! Character-level building blocks shared by every parser and renderer of the
//! crate: conversions between strings and character vectors, character
//! classes, scanning, trimming, line splitting and decimal numbers.

use vstd::prelude::*;

verus! {

/// `String::push` of the standard library: the character is appended, the
/// characters already there stay as they are.
pub assume_specification[ String::push ](s: &mut String, c: char)
    ensures
        final(s)@ == old(s)@.push(c),
;

/// The characters of `s`, in order.
pub fn chars_of(s: &str) -> (v: Vec<char>)
    ensures
        v@ == s@,
{
    let mut v: Vec<char> = Vec::new();
    for c in it: s.chars()
        invariant
            v@ == it.seq().take(it.index@),
    {
        v.push(c);
    }
    v
}

/// The string made of the characters of `v`, in order.
pub fn string_of(v: &Vec<char>) -> (s: String)
    ensures
        s@ == v@,
{
    let mut s = String::new();
    let mut i: usize = 0;
    while i < v.len()
        invariant
            i <= v.len(),
            s@ == v@.take(i as int),
        decreases v.len() - i,
    {
        s.push(v[i]);
        i += 1;
    }
    s
}

/// A copy of the characters from `from` up to `to`.
pub(crate) fn slice_of(v: &Vec<char>, from: usize, to: usize) -> (r: Vec<char>)
    requires
        from <= to <= v.len(),
    ensures
        r@ == v@.subrange(from as int, to as int),
{
    let mut r: Vec<char> = Vec::new();
    let mut i: usize = from;
    while i < to
        invariant
            from <= i <= to <= v.len(),
            r@ == v@.subrange(from as int, i as int),
        decreases to - i,
    {
        r.push(v[i]);
        i += 1;
    }
    r
}

/// Appends the characters of `tail` to `out`.
pub fn append_chars(out: &mut Vec<char>, tail: &Vec<char>)
    ensures
        final(out)@ == old(out)@ + tail@,
{
    let mut i: usize = 0;
    while i < tail.len()
        invariant
            i <= tail.len(),
            out@ == old(out)@ + tail@.take(i as int),
        decreases tail.len() - i,
    {
        out.push(tail[i]);
        i += 1;
    }
}

/// Appends the characters of the string `tail` to `out`.
pub fn append_str(out: &mut Vec<char>, tail: &str)
    ensures
        final(out)@ == old(out)@ + tail@,
{
    let t = chars_of(tail);
    append_chars(out, &t);
}

/// Whether two character vectors hold the same text.
pub fn same_chars(a: &Vec<char>, b: &Vec<char>) -> (r: bool)
    ensures
        r == (a@ == b@),
{
    if a.len() != b.len() {
        return false;
    }
    let mut i: usize = 0;
    while i < a.len()
        invariant
            i <= a.len(),
            a.len() == b.len(),
            a@.take(i as int) == b@.take(i as int),
        decreases a.len() - i,
    {
        if a[i] != b[i] {
            return false;
        }
        i += 1;
    }
    assert(a@.take(a.len() as int) =~= a@);
    assert(b@.take(b.len() as int) =~= b@);
    true
}

/// Whether `v` holds exactly the text of `s`.
pub fn is_text(v: &Vec<char>, s: &str) -> (r: bool)
    ensures
        r == (v@ == s@),
{
    let t = chars_of(s);
    same_chars(v, &t)
}

/// An ASCII decimal digit.
pub open spec fn is_digit(c: char) -> bool {
    '0' <= c && c <= '9'
}

/// Whether a character is an ASCII decimal digit.
pub fn digit(c: char) -> (r: bool)
    ensures
        r == is_digit(c),
{
    '0' <= c && c <= '9'
}

/// An ASCII letter.
pub open spec fn is_letter(c: char) -> bool {
    ('a' <= c && c <= 'z') || ('A' <= c && c <= 'Z')
}

/// A word character: an ASCII letter, an ASCII digit or the underscore.
pub open spec fn is_word(c: char) -> bool {
    is_letter(c) || is_digit(c) || c == '_'
}

/// Whether a character is a word character.
pub fn word(c: char) -> (r: bool)
    ensures
        r == is_word(c),
{
    ('a' <= c && c <= 'z') || ('A' <= c && c <= 'Z') || ('0' <= c && c <= '9') || c == '_'
}

/// White space: the characters that carry the Unicode property of that name.
pub open spec fn is_space(c: char) -> bool {
    c == ' ' || ('\u{9}' <= c && c <= '\u{d}') || c == '\u{85}' || c == '\u{a0}' || c
        == '\u{1680}' || ('\u{2000}' <= c && c <= '\u{200a}') || c == '\u{2028}' || c
        == '\u{2029}' || c == '\u{202f}' || c == '\u{205f}' || c == '\u{3000}'
}

/// Whether a character is white space.
pub fn space(c: char) -> (r: bool)
    ensures
        r == is_space(c),
{
    c == ' ' || ('\u{9}' <= c && c <= '\u{d}') || c == '\u{85}' || c == '\u{a0}' || c
        == '\u{1680}' || ('\u{2000}' <= c && c <= '\u{200a}') || c == '\u{2028}' || c
        == '\u{2029}' || c == '\u{202f}' || c == '\u{205f}' || c == '\u{3000}'
}

/// The end of the longest run of digits that starts at `i`.
pub open spec fn digits_end(s: Seq<char>, i: int) -> int
    decreases s.len() - i,
{
    if 0 <= i < s.len() && is_digit(s[i]) {
        digits_end(s, i + 1)
    } else {
        i
    }
}

/// The end of the longest run of white space that starts at `i`.
pub open spec fn spaces_end(s: Seq<char>, i: int) -> int
    decreases s.len() - i,
{
    if 0 <= i < s.len() && is_space(s[i]) {
        spaces_end(s, i + 1)
    } else {
        i
    }
}

/// The end of the longest run of word characters that starts at `i`.
pub open spec fn word_end(s: Seq<char>, i: int) -> int
    decreases s.len() - i,
{
    if 0 <= i < s.len() && is_word(s[i]) {
        word_end(s, i + 1)
    } else {
        i
    }
}

/// The start of the longest run of white space that ends at `j`.
pub open spec fn spaces_start(s: Seq<char>, j: int) -> int
    decreases j,
{
    if 0 < j <= s.len() && is_space(s[j - 1]) {
        spaces_start(s, j - 1)
    } else {
        j
    }
}

/// A run of digits ends inside the text, holds digits only, and no digit
/// follows it.
pub proof fn lemma_digits_end_bounds(s: Seq<char>, i: int)
    requires
        0 <= i <= s.len(),
    ensures
        i <= digits_end(s, i) <= s.len(),
        forall|k: int| i <= k < digits_end(s, i) ==> is_digit(#[trigger] s[k]),
        digits_end(s, i) < s.len() ==> !is_digit(s[digits_end(s, i)]),
    decreases s.len() - i,
{
    if i < s.len() && is_digit(s[i]) {
        lemma_digits_end_bounds(s, i + 1);
    }
}

/// A run of white space ends inside the text, holds white space only, and
/// no white space follows it.
pub proof fn lemma_spaces_end_bounds(s: Seq<char>, i: int)
    requires
        0 <= i <= s.len(),
    ensures
        i <= spaces_end(s, i) <= s.len(),
        forall|k: int| i <= k < spaces_end(s, i) ==> is_space(#[trigger] s[k]),
        spaces_end(s, i) < s.len() ==> !is_space(s[spaces_end(s, i)]),
    decreases s.len() - i,
{
    if i < s.len() && is_space(s[i]) {
        lemma_spaces_end_bounds(s, i + 1);
    }
}

/// A run of white space that ends at `j` begins inside the text, holds white
/// space only, and no white space stands before it.
pub proof fn lemma_spaces_start_bounds(s: Seq<char>, j: int)
    requires
        0 <= j <= s.len(),
    ensures
        0 <= spaces_start(s, j) <= j,
        forall|k: int| spaces_start(s, j) <= k < j ==> is_space(#[trigger] s[k]),
        spaces_start(s, j) > 0 ==> !is_space(s[spaces_start(s, j) - 1]),
    decreases j,
{
    if 0 < j && is_space(s[j - 1]) {
        lemma_spaces_start_bounds(s, j - 1);
    }
}

pub(crate) fn scan_digits(v: &Vec<char>, i: usize) -> (e: usize)
    requires
        i <= v.len(),
    ensures
        e == digits_end(v@, i as int),
        i <= e <= v.len(),
{
    let mut j: usize = i;
    while j < v.len() && digit(v[j])
        invariant
            i <= j <= v.len(),
            digits_end(v@, i as int) == digits_end(v@, j as int),
        decreases v.len() - j,
    {
        j += 1;
    }
    j
}

pub(crate) fn scan_spaces(v: &Vec<char>, i: usize) -> (e: usize)
    requires
        i <= v.len(),
    ensures
        e == spaces_end(v@, i as int),
        i <= e <= v.len(),
{
    let mut j: usize = i;
    while j < v.len() && space(v[j])
        invariant
            i <= j <= v.len(),
            spaces_end(v@, i as int) == spaces_end(v@, j as int),
        decreases v.len() - j,
    {
        j += 1;
    }
    j
}

pub(crate) fn scan_word(v: &Vec<char>, i: usize) -> (e: usize)
    requires
        i <= v.len(),
    ensures
        e == word_end(v@, i as int),
        i <= e <= v.len(),
{
    let mut j: usize = i;
    while j < v.len() && word(v[j])
        invariant
            i <= j <= v.len(),
            word_end(v@, i as int) == word_end(v@, j as int),
        decreases v.len() - j,
    {
        j += 1;
    }
    j
}

pub(crate) fn scan_spaces_back(v: &Vec<char>, j: usize) -> (b: usize)
    requires
        j <= v.len(),
    ensures
        b == spaces_start(v@, j as int),
        b <= j,
{
    let mut k: usize = j;
    while k > 0 && space(v[k - 1])
        invariant
            k <= j <= v.len(),
            spaces_start(v@, j as int) == spaces_start(v@, k as int),
        decreases k,
    {
        k -= 1;
    }
    k
}

/// `s` without the white space at its two ends.
pub open spec fn trimmed(s: Seq<char>) -> Seq<char> {
    let a = spaces_end(s, 0);
    if a >= s.len() {
        Seq::empty()
    } else {
        s.subrange(a, spaces_start(s, s.len() as int))
    }
}

/// The text without the white space at its two ends.
pub fn trim(v: &Vec<char>) -> (r: Vec<char>)
    ensures
        r@ == trimmed(v@),
{
    let a = scan_spaces(v, 0);
    if a >= v.len() {
        return Vec::new();
    }
    let b = scan_spaces_back(v, v.len());
    proof {
        lemma_spaces_end_bounds(v@, 0);
        lemma_spaces_start_bounds(v@, v@.len() as int);
    }
    slice_of(v, a, b)
}

/// Whether the text of `p` stands in `s` at position `i`.
pub open spec fn has_at(s: Seq<char>, i: int, p: Seq<char>) -> bool {
    0 <= i && i + p.len() <= s.len() && s.subrange(i, i + p.len()) == p
}

pub(crate) fn matches_at(v: &Vec<char>, i: usize, p: &Vec<char>) -> (r: bool)
    requires
        i <= v.len(),
    ensures
        r == has_at(v@, i as int, p@),
{
    if p.len() > v.len() - i {
        return false;
    }
    let mut k: usize = 0;
    while k < p.len()
        invariant
            k <= p.len(),
            i + p.len() <= v.len(),
            v@.subrange(i as int, i + k) == p@.take(k as int),
        decreases p.len() - k,
    {
        if v[i + k] != p[k] {
            proof {
                let w = v@.subrange(i as int, i + p.len());
            }
            return false;
        }
        k += 1;
    }
    assert(p@.take(p.len() as int) =~= p@);
    true
}

/// The first position at or after `i` where `c` stands, or the length of `s`.
pub open spec fn index_of(s: Seq<char>, c: char, i: int) -> int
    decreases s.len() - i,
{
    if 0 <= i < s.len() && s[i] != c {
        index_of(s, c, i + 1)
    } else {
        i
    }
}

pub(crate) fn find_char(v: &Vec<char>, c: char, i: usize) -> (e: usize)
    requires
        i <= v.len(),
    ensures
        e == index_of(v@, c, i as int),
        i <= e <= v.len(),
{
    let mut j: usize = i;
    while j < v.len() && v[j] != c
        invariant
            i <= j <= v.len(),
            index_of(v@, c, i as int) == index_of(v@, c, j as int),
        decreases v.len() - j,
    {
        j += 1;
    }
    j
}

/// The first position at or after `i` where the text of `p` stands, or the
/// length of `s` where it stands nowhere.
pub open spec fn find_from(s: Seq<char>, p: Seq<char>, i: int) -> int
    decreases s.len() - i,
{
    if 0 <= i < s.len() && !has_at(s, i, p) {
        find_from(s, p, i + 1)
    } else {
        i
    }
}

/// Whether the text of `p` stands somewhere in `s`.
pub open spec fn contains_text(s: Seq<char>, p: Seq<char>) -> bool {
    has_at(s, find_from(s, p, 0), p)
}

pub(crate) fn find_text(v: &Vec<char>, p: &Vec<char>, i: usize) -> (e: usize)
    requires
        i <= v.len(),
    ensures
        e == find_from(v@, p@, i as int),
        i <= e <= v.len(),
{
    let mut j: usize = i;
    while j < v.len() && !matches_at(v, j, p)
        invariant
            i <= j <= v.len(),
            find_from(v@, p@, i as int) == find_from(v@, p@, j as int),
        decreases v.len() - j,
    {
        j += 1;
    }
    j
}

/// Whether the text of `p` stands somewhere in `v`.
pub fn contains(v: &Vec<char>, p: &str) -> (r: bool)
    ensures
        r == contains_text(v@, p@),
{
    let t = chars_of(p);
    let e = find_text(v, &t, 0);
    matches_at(v, e, &t)
}


/// `l` without a carriage return at its end.
pub open spec fn without_cr(l: Seq<char>) -> Seq<char> {
    if l.len() > 0 && l.last() == '\r' {
        l.drop_last()
    } else {
        l
    }
}

/// The lines of `s` from position `i` on. A line ends at a line feed, which
/// is no part of it, nor is a carriage return just before the line feed.
/// What follows the last line feed is a line of its own unless it is empty.
pub open spec fn lines_from(s: Seq<char>, i: int) -> Seq<Seq<char>>
    decreases s.len() - i,
{
    let e = index_of(s, '\n', i);
    if i < 0 || i >= s.len() {
        Seq::empty()
    } else if i <= e && e < s.len() {
        seq![without_cr(s.subrange(i, e))] + lines_from(s, e + 1)
    } else {
        seq![s.subrange(i, s.len() as int)]
    }
}

/// The lines of `s`.
pub open spec fn lines_of(s: Seq<char>) -> Seq<Seq<char>> {
    lines_from(s, 0)
}

/// The views of a sequence of texts.
pub open spec fn views(s: Seq<Vec<char>>) -> Seq<Seq<char>> {
    s.map_values(|x: Vec<char>| x@)
}

/// What one more text adds to the views of a sequence of texts.
pub proof fn lemma_views_push(s: Seq<Vec<char>>, t: Vec<char>)
    ensures
        views(s.push(t)) == views(s).push(t@),
{
}

/// The lines of a text.
pub fn lines(v: &Vec<char>) -> (r: Vec<Vec<char>>)
    ensures
        views(r@) == lines_of(v@),
{
    let mut r: Vec<Vec<char>> = Vec::new();
    let mut i: usize = 0;
    while i < v.len()
        invariant
            i <= v.len(),
            lines_of(v@) == views(r@) + lines_from(v@, i as int),
        decreases v.len() - i,
    {
        let e = find_char(v, '\n', i);
        if e < v.len() {
            let line = if e > i && v[e - 1] == '\r' {
                slice_of(v, i, e - 1)
            } else {
                slice_of(v, i, e)
            };
            proof {
                let whole = v@.subrange(i as int, e as int);
                if e > i && v@[e - 1] == '\r' {
                    assert(whole.drop_last() =~= v@.subrange(i as int, e - 1));
                }
            }
            r.push(line);
            i = e + 1;
        } else {
            let line = slice_of(v, i, v.len());
            r.push(line);
            i = v.len();
        }
    }
    r
}


/// `s` from position `i` on with `to` in place of each `pat`, read from left
/// to right. An empty `pat` stands nowhere.
pub open spec fn replaced_from(s: Seq<char>, pat: Seq<char>, to: Seq<char>, i: int) -> Seq<char>
    decreases s.len() - i,
{
    if i < 0 || i >= s.len() {
        Seq::empty()
    } else if pat.len() > 0 && has_at(s, i, pat) {
        to + replaced_from(s, pat, to, i + pat.len())
    } else {
        seq![s[i]] + replaced_from(s, pat, to, i + 1)
    }
}

/// `s` with `to` in place of each `pat`.
pub open spec fn replaced(s: Seq<char>, pat: Seq<char>, to: Seq<char>) -> Seq<char> {
    replaced_from(s, pat, to, 0)
}

/// The text with `to` in place of each `pat`.
pub fn replace_all(v: &Vec<char>, pat: &str, to: &Vec<char>) -> (r: Vec<char>)
    ensures
        r@ == replaced(v@, pat@, to@),
{
    let p = chars_of(pat);
    let mut r: Vec<char> = Vec::new();
    let mut i: usize = 0;
    while i < v.len()
        invariant
            i <= v.len(),
            p@ == pat@,
            replaced(v@, pat@, to@) == r@ + replaced_from(v@, pat@, to@, i as int),
        decreases v.len() - i,
    {
        if p.len() > 0 && matches_at(v, i, &p) {
            append_chars(&mut r, to);
            i += p.len();
        } else {
            r.push(v[i]);
            i += 1;
        }
    }
    r
}

/// `n` times the character `c`.
pub open spec fn repeat(c: char, n: nat) -> Seq<char> {
    Seq::new(n, |i: int| c)
}

/// Appends `n` times the character `c`.
pub fn push_repeat(out: &mut Vec<char>, c: char, n: usize)
    ensures
        final(out)@ == old(out)@ + repeat(c, n as nat),
{
    let mut i: usize = 0;
    while i < n
        invariant
            i <= n,
            out@ == old(out)@ + repeat(c, i as nat),
        decreases n - i,
    {
        out.push(c);
        i += 1;
    }
}

/// The number of bytes that a character takes in UTF-8.
pub open spec fn width(c: char) -> nat {
    if (c as u32) < 0x80 {
        1
    } else if (c as u32) < 0x800 {
        2
    } else if (c as u32) < 0x10000 {
        3
    } else {
        4
    }
}

/// The number of bytes that a text takes in UTF-8.
pub open spec fn byte_len(s: Seq<char>) -> nat
    decreases s.len(),
{
    if s.len() == 0 {
        0
    } else {
        byte_len(s.drop_last()) + width(s.last())
    }
}

/// Appends `c` once for each byte that `title` takes in UTF-8.
pub fn push_rule(out: &mut Vec<char>, c: char, title: &Vec<char>)
    ensures
        final(out)@ == old(out)@ + repeat(c, byte_len(title@)),
{
    let mut i: usize = 0;
    while i < title.len()
        invariant
            i <= title.len(),
            out@ == old(out)@ + repeat(c, byte_len(title@.take(i as int))),
        decreases title.len() - i,
    {
        let x = title[i] as u32;
        let w: usize = if x < 0x80 {
            1
        } else if x < 0x800 {
            2
        } else if x < 0x10000 {
            3
        } else {
            4
        };
        push_repeat(out, c, w);
        proof {
            assert(title@.take(i + 1).drop_last() =~= title@.take(i as int));
        }
        i += 1;
    }
    assert(title@.take(title.len() as int) =~= title@);
}

/// The texts of `parts` one after the other.
pub open spec fn flat(parts: Seq<Seq<char>>) -> Seq<char>
    decreases parts.len(),
{
    if parts.len() == 0 {
        Seq::empty()
    } else {
        flat(parts.drop_last()) + parts.last()
    }
}

/// What one more part adds to a concatenation.
pub proof fn lemma_flat_push(parts: Seq<Seq<char>>, last: Seq<char>)
    ensures
        flat(parts.push(last)) == flat(parts) + last,
{
    assert(parts.push(last).drop_last() =~= parts);
}

/// The texts of `parts` with a comma and a blank between each two
/// neighbours.
pub open spec fn listed(parts: Seq<Seq<char>>) -> Seq<char>
    decreases parts.len(),
{
    if parts.len() == 0 {
        Seq::empty()
    } else if parts.len() == 1 {
        parts[0]
    } else {
        listed(parts.drop_last()) + ", "@ + parts.last()
    }
}

/// Appends the texts of `parts` with a comma and a blank between each two
/// neighbours.
pub fn push_listed(out: &mut Vec<char>, parts: &Vec<Vec<char>>)
    ensures
        final(out)@ == old(out)@ + listed(views(parts@)),
{
    let ghost p = views(parts@);
    let mut i: usize = 0;
    while i < parts.len()
        invariant
            i <= parts.len(),
            p == views(parts@),
            out@ == old(out)@ + listed(p.take(i as int)),
        decreases parts.len() - i,
    {
        if i > 0 {
            append_str(out, ", ");
        }
        append_chars(out, &parts[i]);
        proof {
            let q = p.take(i + 1);
            assert(q.drop_last() =~= p.take(i as int));
        }
        i += 1;
    }
    assert(p.take(parts.len() as int) =~= p);
}

/// `s` without the white space at its end.
pub open spec fn trimmed_end(s: Seq<char>) -> Seq<char> {
    s.subrange(0, spaces_start(s, s.len() as int))
}

/// The text without the white space at its end.
pub fn trim_end(v: &Vec<char>) -> (r: Vec<char>)
    ensures
        r@ == trimmed_end(v@),
{
    let b = scan_spaces_back(v, v.len());
    slice_of(v, 0, b)
}

} // verus!
