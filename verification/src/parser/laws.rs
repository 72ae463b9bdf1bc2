use vstd::prelude::*;
use crate::parser::failure::{fail, FailureKind};
use crate::parser::indent::{
    established, indent_levels, is_mixed, lemma_repeat_len, line_kind, LineKind,
};
use crate::parser::scan::{line_ending_at, repeat, run_end, CharClass};
use crate::parser::tag::node::{head_at, HeadModel};

verus! {

/// The indentation of the line below the line ending at `pos`: the spaces and
/// tabs that follow the carriage returns and line feeds from `pos` on.
pub open spec fn indent_below(s: Seq<char>, pos: int) -> Seq<char> {
    let line = run_end(s, pos, CharClass::LineBreak);
    s.subrange(line, run_end(s, line, CharClass::Indent))
}

/// The first indentation of a document becomes its unit, whatever its length: a
/// line with it is a child of a tag at depth 0.
pub proof fn lemma_first_indentation_is_the_unit(indent: Seq<char>)
    requires
        indent.len() > 0,
        !is_mixed(indent),
    ensures
        established(indent, None) == Some(indent),
        line_kind(indent, None, 0) == LineKind::Child,
{
    assert(indent.len() as int / indent.len() as int == 1) by (nonlinear_arith)
        requires
            indent.len() > 0,
    ;
    assert(indent.len() as int % indent.len() as int == 0) by (nonlinear_arith)
        requires
            indent.len() > 0,
    ;
    assert(repeat(indent, 0) =~= Seq::<char>::empty());
    assert(repeat(indent, 1) =~= indent);
}

/// Once a document has a unit, an indentation below a tag at depth `depth` that
/// is not the unit 1 to `depth + 1` times in a row is inconsistent.
pub proof fn lemma_indentation_goes_by_the_unit(indent: Seq<char>, unit: Seq<char>, depth: int)
    requires
        indent.len() > 0,
        forall|k: int| 1 <= k <= depth + 1 ==> indent != #[trigger] repeat(unit, k),
    ensures
        line_kind(indent, Some(unit), depth) == LineKind::Inconsistent,
{
    if indent_levels(indent, unit) is Some {
        let levels = indent_levels(indent, unit)->0;
        assert(indent == repeat(unit, levels));
        assert(levels >= 1) by (nonlinear_arith)
            requires
                levels == indent.len() as int / unit.len() as int,
                indent.len() as int % unit.len() as int == 0,
                indent.len() > 0,
                unit.len() > 0,
        ;
    }
}

/// Once a document has a unit, an indentation below a tag at depth `depth` that
/// is longer than `depth` units and not as long as `depth + 1` units is
/// inconsistent: a child has to go by the length of the unit.
pub proof fn lemma_other_length_is_inconsistent(indent: Seq<char>, unit: Seq<char>, depth: int)
    requires
        depth >= 0,
        indent.len() > depth * unit.len(),
        indent.len() != (depth + 1) * unit.len(),
    ensures
        line_kind(indent, Some(unit), depth) == LineKind::Inconsistent,
{
    assert(indent.len() > 0) by (nonlinear_arith)
        requires
            depth >= 0,
            indent.len() > depth * unit.len(),
    ;
    assert forall|k: int| 1 <= k <= depth + 1 implies indent != #[trigger] repeat(unit, k) by {
        lemma_repeat_len(unit, k);
        if indent == repeat(unit, k) {
            assert(k * unit.len() <= depth * unit.len() || k == depth + 1) by (nonlinear_arith)
                requires
                    1 <= k <= depth + 1,
                    unit.len() >= 0,
            ;
        }
    }
    lemma_indentation_goes_by_the_unit(indent, unit, depth);
}

/// A tag whose head ends with a line ending, below which the line is indented
/// inconsistently, fails with `InconsistentIndentation` at that line ending.
pub proof fn lemma_inconsistent_line_fails(s: Seq<char>, pos: int, depth: int, head: HeadModel)
    requires
        line_ending_at(s, pos),
        line_kind(indent_below(s, pos), head.unit, depth) == LineKind::Inconsistent,
    ensures
        head_at(s, pos, depth, head) == fail::<(int, HeadModel)>(
            pos,
            FailureKind::InconsistentIndentation,
        ),
{
}

/// Once a document has a unit, a line below a tag at depth `depth` whose
/// indentation is not the unit 1 to `depth + 1` times in a row makes reading the
/// tag fail with `InconsistentIndentation`.
pub proof fn lemma_unit_is_stable(
    s: Seq<char>,
    pos: int,
    depth: int,
    head: HeadModel,
    unit: Seq<char>,
)
    requires
        line_ending_at(s, pos),
        head.unit == Some(unit),
        indent_below(s, pos).len() > 0,
        forall|k: int| 1 <= k <= depth + 1 ==> indent_below(s, pos) != #[trigger] repeat(unit, k),
    ensures
        head_at(s, pos, depth, head) == fail::<(int, HeadModel)>(
            pos,
            FailureKind::InconsistentIndentation,
        ),
{
    lemma_indentation_goes_by_the_unit(indent_below(s, pos), unit, depth);
    lemma_inconsistent_line_fails(s, pos, depth, head);
}

} // verus!
