use vstd::prelude::*;
use crate::parser::scan::{repeat, starts_with_at};

verus! {

/// What the indentation of a line says of the line, seen from a tag that ends on
/// the line before it.
#[derive(Clone, Copy, Debug, PartialEq, Eq, Structural)]
pub enum LineKind {
    /// The line is not indented: the tag has no more children.
    Flush,
    /// The line is indented one level deeper than the tag: it is a child of the tag.
    Child,
    /// The line is indented, and no deeper than the tag: it belongs to a tag that
    /// encloses this one.
    Shallower,
    /// The indentation mixes tabs and spaces, is no whole multiple of the unit, or
    /// is more than one level deeper than the tag.
    Inconsistent,
}

/// Whether an indentation holds a space and a tab.
pub open spec fn is_mixed(indent: Seq<char>) -> bool {
    indent.contains(' ') && indent.contains('\t')
}

/// How many times in a row `unit` makes up `indent`, if it does and neither is
/// empty.
pub open spec fn indent_levels(indent: Seq<char>, unit: Seq<char>) -> Option<int> {
    if unit.len() > 0 && indent.len() > 0 && indent.len() % unit.len() == 0 && indent == repeat(
        unit,
        indent.len() as int / unit.len() as int,
    ) {
        Some(indent.len() as int / unit.len() as int)
    } else {
        None
    }
}

/// The unit of a document after a line with the indentation `indent`: the one it
/// had, or else this first indentation.
pub open spec fn established(indent: Seq<char>, unit: Option<Seq<char>>) -> Option<Seq<char>> {
    match unit {
        Some(u) => Some(u),
        None => Some(indent),
    }
}

/// What the indentation `indent` of a line says, below a tag at depth `depth`, in
/// a document with the unit `unit`.
pub open spec fn line_kind(indent: Seq<char>, unit: Option<Seq<char>>, depth: int) -> LineKind {
    if indent.len() == 0 {
        LineKind::Flush
    } else if is_mixed(indent) {
        LineKind::Inconsistent
    } else {
        match indent_levels(indent, established(indent, unit)->0) {
            Some(levels) => if levels == depth + 1 {
                LineKind::Child
            } else if levels <= depth {
                LineKind::Shallower
            } else {
                LineKind::Inconsistent
            },
            None => LineKind::Inconsistent,
        }
    }
}

/// How long a repeated unit is.
pub proof fn lemma_repeat_len(unit: Seq<char>, n: int)
    requires
        n >= 0,
    ensures
        repeat(unit, n).len() == n * unit.len(),
    decreases n,
{
    if n > 0 {
        lemma_repeat_len(unit, n - 1);
        assert(n * unit.len() == (n - 1) * unit.len() + unit.len()) by (nonlinear_arith);
    } else {
        assert(0 * unit.len() == 0) by (nonlinear_arith);
    }
}

/// A repeated unit starts with every shorter repetition of the unit.
pub proof fn lemma_repeat_prefix(unit: Seq<char>, n: int, m: int)
    requires
        0 <= m <= n,
    ensures
        m * unit.len() <= repeat(unit, n).len(),
        repeat(unit, n).subrange(0, m * unit.len()) == repeat(unit, m),
    decreases n,
{
    lemma_repeat_len(unit, n);
    lemma_repeat_len(unit, m);
    if m == n {
        assert(repeat(unit, n).subrange(0, m * unit.len()) =~= repeat(unit, m));
    } else {
        lemma_repeat_prefix(unit, n - 1, m);
        lemma_repeat_len(unit, n - 1);
        assert(repeat(unit, n).subrange(0, m * unit.len()) =~= repeat(unit, n - 1).subrange(
            0,
            m * unit.len(),
        ));
    }
}

/// Says whether `c` stands in `s` from `from` up to `to`.
fn holds_char(s: &[char], from: usize, to: usize, c: char) -> (b: bool)
    requires
        from <= to <= s@.len(),
    ensures
        b == s@.subrange(from as int, to as int).contains(c),
{
    let ghost part = s@.subrange(from as int, to as int);
    let mut i: usize = from;
    while i < to
        invariant
            from <= i <= to <= s@.len(),
            part == s@.subrange(from as int, to as int),
            forall|j: int| from <= j < i ==> s@[j] != c,
        decreases to - i,
    {
        if s[i] == c {
            assert(part[i - from] == c);
            return true;
        }
        i += 1;
    }
    assert(forall|j: int| 0 <= j < part.len() ==> part[j] == s@[from + j]);
    false
}

/// Counts how many times in a row `unit` makes up what `s` holds from `from` up
/// to `to`.
fn count_levels(s: &[char], from: usize, to: usize, unit: &[char]) -> (r: Option<usize>)
    requires
        from <= to <= s@.len(),
    ensures
        match r {
            Some(k) => indent_levels(s@.subrange(from as int, to as int), unit@) == Some(k as int)
                && 1 <= k <= to - from,
            None => indent_levels(s@.subrange(from as int, to as int), unit@) is None,
        },
{
    let ghost indent = s@.subrange(from as int, to as int);
    let width = unit.len();
    let total = to - from;
    if width == 0 || total == 0 || total % width != 0 {
        return None;
    }
    let levels = total / width;
    assert(total == levels * width && levels >= 1) by (nonlinear_arith)
        requires
            width > 0,
            total > 0,
            total % width == 0,
            levels == total / width,
    ;
    let mut k: usize = 0;
    let mut at: usize = from;
    while k < levels
        invariant
            from <= to <= s@.len(),
            indent == s@.subrange(from as int, to as int),
            width == unit@.len(),
            width > 0,
            total == to - from,
            total == levels * width,
            levels == total / width,
            total % width == 0,
            total > 0,
            k <= levels,
            at == from + k * width,
            at <= to,
            s@.subrange(from as int, at as int) == repeat(unit@, k as int),
        decreases levels - k,
    {
        assert(at + width <= to) by (nonlinear_arith)
            requires
                at == from + k * width,
                k < levels,
                to - from == levels * width,
        ;
        if !starts_with_at(s, at, unit) {
            proof {
                if indent == repeat(unit@, levels as int) {
                    lemma_repeat_prefix(unit@, levels as int, k + 1);
                    lemma_repeat_prefix(unit@, levels as int, k as int);
                    assert((k + 1) * width == k * width + width) by (nonlinear_arith);
                    let whole = repeat(unit@, levels as int);
                    let longer = whole.subrange(0, (k + 1) * width);
                    assert(longer == repeat(unit@, k as int) + unit@);
                    assert(s@.subrange(at as int, at + width) =~= longer.subrange(
                        k * width,
                        (k + 1) * width,
                    ));
                    lemma_repeat_len(unit@, k as int);
                    assert(longer.subrange(k * width, (k + 1) * width) =~= unit@);
                    assert(false);
                }
            }
            return None;
        }
        proof {
            assert((k + 1) * width == k * width + width) by (nonlinear_arith);
            assert(s@.subrange(from as int, at + width) =~= s@.subrange(from as int, at as int)
                + s@.subrange(at as int, at + width));
        }
        at += width;
        k += 1;
    }
    proof {
        assert(at == to);
    }
    Some(levels)
}

/// Says what the indentation that `s` holds from `from` up to `to` means below a
/// tag at depth `depth`, in a document with the unit `unit`.
pub fn classify_line(s: &[char], from: usize, to: usize, unit: &Option<Vec<char>>, depth: usize) -> (kind:
    LineKind)
    requires
        from <= to <= s@.len(),
    ensures
        kind == line_kind(
            s@.subrange(from as int, to as int),
            match *unit {
                Some(u) => Some(u@),
                None => None,
            },
            depth as int,
        ),
        kind == LineKind::Child ==> depth < to - from,
{
    if from == to {
        return LineKind::Flush;
    }
    if holds_char(s, from, to, ' ') && holds_char(s, from, to, '\t') {
        return LineKind::Inconsistent;
    }
    let levels = match unit {
        Some(u) => count_levels(s, from, to, u.as_slice()),
        None => count_levels(s, from, to, vstd::slice::slice_subrange(s, from, to)),
    };
    match levels {
        Some(k) => {
            if k - 1 == depth {
                LineKind::Child
            } else if k <= depth {
                LineKind::Shallower
            } else {
                LineKind::Inconsistent
            }
        },
        None => LineKind::Inconsistent,
    }
}

} // verus!
