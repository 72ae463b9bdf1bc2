use vstd::prelude::*;
use crate::parser::failure::{fail, suffix, FailureKind, FailureModel, ParseFailure};
use crate::parser::input::{failure_on, rest_from};
use crate::parser::model::{
    document_well_formed, lemma_nodes_model, lemma_nodes_model_push, nodes_model, NodeModel,
};
use crate::parser::scan::{run_end, skip_run, to_chars, CharClass};
use crate::parser::tag::node::{node_at, parse_node_at, unit_model};
use crate::parser::{HsmlNode, RootNode};

verus! {

/// The nodes of the document from `pos` on, behind the nodes `before`. Blank
/// space before a node, and behind the last, counts for nothing; every node
/// stands at depth 0. (The bounds on where a node ends always hold, as
/// `lemma_node_goes_forward` shows.)
pub open spec fn document(
    s: Seq<char>,
    pos: int,
    unit: Option<Seq<char>>,
    before: Seq<NodeModel>,
) -> Result<Seq<NodeModel>, FailureModel>
    decreases s.len() - pos,
{
    let p = run_end(s, pos, CharClass::Blank);
    if p < 0 || p >= s.len() {
        Ok(before)
    } else {
        match node_at(s, p, 0, unit) {
            Ok((end, node, unit_after)) => if pos < end <= s.len() {
                document(s, end, unit_after, before.push(node))
            } else {
                fail(p, FailureKind::UnexpectedEndOfInput)
            },
            Err(f) => Err(f),
        }
    }
}

/// What `parse` gives for the input `s`: the nodes of the document, or what was
/// left of the input where reading failed, and why.
pub open spec fn spec_parse(s: Seq<char>) -> Result<Seq<NodeModel>, (Seq<char>, FailureKind)> {
    match document(s, 0, None, Seq::empty()) {
        Ok(nodes) => Ok(nodes),
        Err(f) => Err((suffix(s, f.at), f.kind)),
    }
}

/// Reads a whole document. On success nothing of the input is left, and the
/// tree is well-formed; a failure anywhere in the document is the outcome, and
/// no tree is given.
pub fn parse<'a>(input: &'a str) -> (r: Result<(&'a str, RootNode), ParseFailure>)
    ensures
        match r {
            Ok((rest, root)) => spec_parse(input@) == Ok::<_, (Seq<char>, FailureKind)>(root@)
                && rest@.len() == 0 && document_well_formed(root@),
            Err(e) => spec_parse(input@) == Err::<Seq<NodeModel>, _>(e@),
        },
{
    let chars = to_chars(input);
    let s = chars.as_slice();
    let len = s.len();
    let mut nodes: Vec<HsmlNode> = Vec::new();
    let mut unit: Option<Vec<char>> = None;
    let mut i: usize = 0;
    loop
        invariant
            len == s@.len(),
            s@ == input@,
            i <= len,
            document(s@, 0, None, Seq::empty()) == document(
                s@,
                i as int,
                unit_model(unit),
                nodes_model(nodes@),
            ),
            document_well_formed(nodes_model(nodes@)),
        decreases len - i,
    {
        let p = skip_run(s, i, CharClass::Blank);
        if p >= len {
            return Ok((rest_from(input, len, len), RootNode { nodes }));
        }
        match parse_node_at(s, p, 0, unit) {
            Ok((end, node, unit_after)) => {
                proof {
                    lemma_nodes_model_push(nodes@, node);
                    lemma_nodes_model(nodes@);
                    lemma_nodes_model(nodes@.push(node));
                }
                nodes.push(node);
                unit = unit_after;
                i = end;
            },
            Err(f) => {
                return Err(failure_on(input, len, f));
            },
        }
    }
}

} // verus!
