use vstd::prelude::*;

verus! {

/// The letters `a` to `z` and `A` to `Z`.
pub open spec fn is_ascii_letter(c: char) -> bool {
    ('a' <= c && c <= 'z') || ('A' <= c && c <= 'Z')
}

/// The digits `0` to `9`.
pub open spec fn is_ascii_digit(c: char) -> bool {
    '0' <= c && c <= '9'
}

/// The ASCII letters and the ASCII digits.
pub open spec fn is_ascii_alphanumeric(c: char) -> bool {
    is_ascii_letter(c) || is_ascii_digit(c)
}

/// The characters with the Unicode property `White_Space`.
pub open spec fn is_whitespace(c: char) -> bool {
    ('\u{9}' <= c && c <= '\u{d}') || c == ' ' || c == '\u{85}' || c == '\u{a0}' || c
        == '\u{1680}' || ('\u{2000}' <= c && c <= '\u{200a}') || c == '\u{2028}' || c
        == '\u{2029}' || c == '\u{202f}' || c == '\u{205f}' || c == '\u{3000}'
}

/// The classes of characters of which the grammar takes whole runs.
#[derive(Clone, Copy, Debug, PartialEq, Eq, Structural)]
pub enum CharClass {
    /// ASCII letters, ASCII digits and `-`.
    TagName,
    /// ASCII letters and ASCII digits.
    Identifier,
    /// Unicode white space.
    Blank,
    /// Unicode white space and `,`.
    Separator,
    /// Space and tab.
    Indent,
    /// Carriage return and line feed.
    LineBreak,
}

impl CharClass {
    /// Whether `c` is of the class.
    pub open spec fn holds(self, c: char) -> bool {
        match self {
            CharClass::TagName => is_ascii_alphanumeric(c) || c == '-',
            CharClass::Identifier => is_ascii_alphanumeric(c),
            CharClass::Blank => is_whitespace(c),
            CharClass::Separator => is_whitespace(c) || c == ',',
            CharClass::Indent => c == ' ' || c == '\t',
            CharClass::LineBreak => c == '\r' || c == '\n',
        }
    }

    /// Says whether `c` is of the class.
    pub fn has(self, c: char) -> (b: bool)
        ensures
            b == self.holds(c),
    {
        match self {
            CharClass::TagName => ascii_alphanumeric(c) || c == '-',
            CharClass::Identifier => ascii_alphanumeric(c),
            CharClass::Blank => whitespace(c),
            CharClass::Separator => whitespace(c) || c == ',',
            CharClass::Indent => c == ' ' || c == '\t',
            CharClass::LineBreak => c == '\r' || c == '\n',
        }
    }
}

/// Says whether `c` is an ASCII letter.
pub fn ascii_letter(c: char) -> (b: bool)
    ensures
        b == is_ascii_letter(c),
{
    (c >= 'a' && c <= 'z') || (c >= 'A' && c <= 'Z')
}

/// Says whether `c` is an ASCII letter or an ASCII digit.
pub fn ascii_alphanumeric(c: char) -> (b: bool)
    ensures
        b == is_ascii_alphanumeric(c),
{
    ascii_letter(c) || (c >= '0' && c <= '9')
}

/// Says whether `c` has the Unicode property `White_Space`.
pub fn whitespace(c: char) -> (b: bool)
    ensures
        b == is_whitespace(c),
{
    (c >= '\u{9}' && c <= '\u{d}') || c == ' ' || c == '\u{85}' || c == '\u{a0}' || c
        == '\u{1680}' || (c >= '\u{2000}' && c <= '\u{200a}') || c == '\u{2028}' || c
        == '\u{2029}' || c == '\u{202f}' || c == '\u{205f}' || c == '\u{3000}'
}

/// Where the run of characters of `class` that starts at `pos` ends: the first
/// position from `pos` on that holds no character of the class.
pub open spec fn run_end(s: Seq<char>, pos: int, class: CharClass) -> int
    decreases s.len() - pos,
{
    if 0 <= pos < s.len() && class.holds(s[pos]) {
        run_end(s, pos + 1, class)
    } else {
        pos
    }
}

/// `run_end` is the end of the longest run: every character before it is of the
/// class, and the one at it, if any, is not.
pub proof fn lemma_run_end(s: Seq<char>, pos: int, class: CharClass)
    requires
        0 <= pos <= s.len(),
    ensures
        pos <= run_end(s, pos, class) <= s.len(),
        forall|i: int| pos <= i < run_end(s, pos, class) ==> class.holds(#[trigger] s[i]),
        run_end(s, pos, class) < s.len() ==> !class.holds(s[run_end(s, pos, class)]),
    decreases s.len() - pos,
{
    if pos < s.len() && class.holds(s[pos]) {
        lemma_run_end(s, pos + 1, class);
    }
}

/// Skips the run of characters of `class` that starts at `pos`.
pub fn skip_run(s: &[char], pos: usize, class: CharClass) -> (end: usize)
    requires
        pos <= s@.len(),
    ensures
        end == run_end(s@, pos as int, class),
        pos <= end <= s@.len(),
{
    let mut i: usize = pos;
    while i < s.len() && class.has(s[i])
        invariant
            pos <= i <= s@.len(),
            run_end(s@, pos as int, class) == run_end(s@, i as int, class),
        decreases s@.len() - i,
    {
        i += 1;
    }
    i
}

/// Whether a line ending, `\n` or `\r\n`, starts at `pos`.
pub open spec fn line_ending_at(s: Seq<char>, pos: int) -> bool {
    0 <= pos < s.len() && (s[pos] == '\n' || (s[pos] == '\r' && pos + 1 < s.len() && s[pos + 1]
        == '\n'))
}

/// Says whether a line ending starts at `pos`.
pub fn is_line_ending_at(s: &[char], pos: usize) -> (b: bool)
    requires
        pos <= s@.len(),
    ensures
        b == line_ending_at(s@, pos as int),
{
    pos < s.len() && (s[pos] == '\n' || (s[pos] == '\r' && pos + 1 < s.len() && s[pos + 1]
        == '\n'))
}

/// Where the line that `pos` lies in ends: the first position from `pos` on at
/// which a line ending starts, or the end of the input.
pub open spec fn line_end(s: Seq<char>, pos: int) -> int
    decreases s.len() - pos,
{
    if 0 <= pos < s.len() && !line_ending_at(s, pos) {
        line_end(s, pos + 1)
    } else {
        pos
    }
}

/// `line_end` is the first line ending from `pos` on: no line ending starts
/// before it, and one starts at it unless it is the end of the input.
pub proof fn lemma_line_end(s: Seq<char>, pos: int)
    requires
        0 <= pos <= s.len(),
    ensures
        pos <= line_end(s, pos) <= s.len(),
        forall|i: int| pos <= i < line_end(s, pos) ==> !line_ending_at(s, i),
        line_end(s, pos) < s.len() ==> line_ending_at(s, line_end(s, pos)),
    decreases s.len() - pos,
{
    if pos < s.len() && !line_ending_at(s, pos) {
        lemma_line_end(s, pos + 1);
    }
}

/// Finds where the line that `pos` lies in ends.
pub fn find_line_end(s: &[char], pos: usize) -> (end: usize)
    requires
        pos <= s@.len(),
    ensures
        end == line_end(s@, pos as int),
        pos <= end <= s@.len(),
{
    let mut i: usize = pos;
    while i < s.len() && !is_line_ending_at(s, i)
        invariant
            pos <= i <= s@.len(),
            line_end(s@, pos as int) == line_end(s@, i as int),
        decreases s@.len() - i,
    {
        i += 1;
    }
    i
}

/// Whether `close` stands at `pos` without a backslash right before it.
pub open spec fn closes_at(s: Seq<char>, pos: int, close: char) -> bool {
    1 <= pos < s.len() && s[pos] == close && s[pos - 1] != '\\'
}

/// The first position from `pos` on at which `close` stands unescaped.
pub open spec fn find_closing(s: Seq<char>, pos: int, close: char) -> Option<int>
    decreases s.len() - pos,
{
    if pos < 1 || pos >= s.len() {
        None
    } else if closes_at(s, pos, close) {
        Some(pos)
    } else {
        find_closing(s, pos + 1, close)
    }
}

/// `find_closing` is the first unescaped `close` from `pos` on, if there is one.
pub proof fn lemma_find_closing(s: Seq<char>, pos: int, close: char)
    requires
        1 <= pos <= s.len(),
    ensures
        match find_closing(s, pos, close) {
            Some(j) => pos <= j < s.len() && closes_at(s, j, close) && forall|i: int|
                pos <= i < j ==> !closes_at(s, i, close),
            None => forall|i: int| pos <= i < s.len() ==> !closes_at(s, i, close),
        },
    decreases s.len() - pos,
{
    if pos < s.len() && !closes_at(s, pos, close) {
        lemma_find_closing(s, pos + 1, close);
    }
}

/// Searches the first position from `pos` on at which `close` stands unescaped.
pub fn search_closing(s: &[char], pos: usize, close: char) -> (r: Option<usize>)
    requires
        1 <= pos <= s@.len(),
    ensures
        match r {
            Some(j) => find_closing(s@, pos as int, close) == Some(j as int) && pos <= j < s@.len(),
            None => find_closing(s@, pos as int, close) is None,
        },
{
    let mut i: usize = pos;
    while i < s.len()
        invariant
            1 <= pos <= i <= s@.len(),
            find_closing(s@, pos as int, close) == find_closing(s@, i as int, close),
        decreases s@.len() - i,
    {
        if s[i] == close && s[i - 1] != '\\' {
            return Some(i);
        }
        i += 1;
    }
    None
}

/// Whether `s` goes on with `p` from `pos`.
pub open spec fn has_prefix_at(s: Seq<char>, pos: int, p: Seq<char>) -> bool {
    0 <= pos && pos + p.len() <= s.len() && s.subrange(pos, pos + p.len()) == p
}

/// Says whether `s` goes on with `p` from `pos`.
pub fn starts_with_at(s: &[char], pos: usize, p: &[char]) -> (b: bool)
    requires
        pos <= s@.len(),
    ensures
        b == has_prefix_at(s@, pos as int, p@),
{
    if p.len() > s.len() - pos {
        return false;
    }
    let mut i: usize = 0;
    while i < p.len()
        invariant
            pos + p@.len() <= s@.len() <= usize::MAX,
            i <= p@.len(),
            s@.subrange(pos as int, pos + i) == p@.subrange(0, i as int),
        decreases p@.len() - i,
    {
        if s[pos + i] != p[i] {
            proof {
                let full = s@.subrange(pos as int, pos + p@.len());
                assert(full[i as int] == s@[pos + i]);
            }
            return false;
        }
        proof {
            assert(s@.subrange(pos as int, pos + i + 1) =~= s@.subrange(pos as int, pos + i).push(
                s@[pos + i],
            ));
            assert(p@.subrange(0, i + 1) =~= p@.subrange(0, i as int).push(p@[i as int]));
        }
        i += 1;
    }
    proof {
        assert(p@.subrange(0, p@.len() as int) =~= p@);
    }
    true
}

/// `unit`, `n` times in a row.
pub open spec fn repeat(unit: Seq<char>, n: int) -> Seq<char>
    decreases n,
{
    if n <= 0 {
        Seq::empty()
    } else {
        repeat(unit, n - 1) + unit
    }
}

/// `unit`, `n` times in a row, as characters.
pub fn repeated(unit: &[char], n: usize) -> (out: Vec<char>)
    ensures
        out@ == repeat(unit@, n as int),
{
    let mut out: Vec<char> = Vec::new();
    let mut k: usize = 0;
    while k < n
        invariant
            k <= n,
            out@ == repeat(unit@, k as int),
        decreases n - k,
    {
        out.extend_from_slice(unit);
        k += 1;
    }
    out
}

/// Whether `char::is_alphanumeric` holds of `c`.
pub uninterp spec fn unicode_alphanumeric(c: char) -> bool;

/// Whether `char::is_alphabetic` holds of `c`.
pub uninterp spec fn unicode_alphabetic(c: char) -> bool;

/// Whether `char::is_numeric` holds of `c`.
pub uninterp spec fn unicode_numeric(c: char) -> bool;

/// `char::is_alphanumeric`: whether `c` is a letter or a number of Unicode. The
/// answer depends on `c` alone; nothing more is claimed of it.
#[verifier::external_body]
pub(crate) fn alphanumeric(c: char) -> (b: bool)
    ensures
        b == unicode_alphanumeric(c),
{
    c.is_alphanumeric()
}

/// `char::is_alphabetic`: whether `c` has the Unicode property `Alphabetic`. The
/// answer depends on `c` alone; nothing more is claimed of it.
#[verifier::external_body]
pub(crate) fn alphabetic(c: char) -> (b: bool)
    ensures
        b == unicode_alphabetic(c),
{
    c.is_alphabetic()
}

/// `char::is_numeric`: whether `c` is in one of the Unicode categories of numbers.
/// The answer depends on `c` alone; nothing more is claimed of it.
#[verifier::external_body]
pub(crate) fn numeric(c: char) -> (b: bool)
    ensures
        b == unicode_numeric(c),
{
    c.is_numeric()
}

/// The characters of a string, one by one.
pub fn to_chars(s: &str) -> (v: Vec<char>)
    ensures
        v@ == s@,
{
    let mut v: Vec<char> = Vec::new();
    for c in it: s.chars()
        invariant
            v@ == it.seq().take(it.index@ as int),
    {
        v.push(c);
    }
    v
}

/// `String::push`: the string afterwards is the string before with `c` at its end.
#[verifier::external_body]
pub(crate) fn push_char(s: &mut String, c: char)
    ensures
        final(s)@ == old(s)@.push(c),
{
    s.push(c);
}

/// The characters of `s` from `from` up to `to`, as a string.
pub fn collect(s: &[char], from: usize, to: usize) -> (out: String)
    requires
        from <= to <= s@.len(),
    ensures
        out@ == s@.subrange(from as int, to as int),
{
    let mut out = String::new();
    let mut i: usize = from;
    while i < to
        invariant
            from <= i <= to <= s@.len(),
            out@ == s@.subrange(from as int, i as int),
        decreases to - i,
    {
        push_char(&mut out, s[i]);
        proof {
            assert(s@.subrange(from as int, i + 1) =~= s@.subrange(from as int, i as int).push(
                s@[i as int],
            ));
        }
        i += 1;
    }
    out
}

} // verus!
