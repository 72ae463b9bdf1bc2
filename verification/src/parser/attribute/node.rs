use vstd::prelude::*;
use crate::parser::attribute::process::{
    key_end, process_attribute_key_at, process_attribute_value_at, value_end,
};
use crate::parser::comment::node::{CommentModel, CommentNode};
use crate::parser::comment::process::{
    comment_marker_at, dev_comment_end, has_comment_marker, process_dev_comment_at,
};
use crate::parser::failure::{fail, on_rest, Failure, FailureKind, FailureModel, ParseFailure};
use crate::parser::input::{failure_on, is_node_outcome, rest_from};
use crate::parser::model::{
    attribute_entry_well_formed, lemma_nodes_model_push, nodes_model, NodeModel,
};
use crate::parser::scan::{collect, run_end, skip_run, to_chars, CharClass};
use crate::parser::{HsmlNode, HsmlProcessContext};

verus! {

/// An attribute of a tag: its key and, unless it is a bare attribute, its value
/// without the quotes.
#[derive(Debug, PartialEq, Eq)]
pub struct AttributeNode {
    pub key: String,
    pub value: Option<String>,
}

/// What an attribute is, as plain values.
pub struct AttributeModel {
    pub key: Seq<char>,
    pub value: Option<Seq<char>>,
}

impl View for AttributeNode {
    type V = AttributeModel;

    open spec fn view(&self) -> AttributeModel {
        AttributeModel {
            key: self.key@,
            value: match self.value {
                Some(v) => Some(v@),
                None => None,
            },
        }
    }
}

/// The attribute that starts at `pos`, and where it ends: a key, and if `=`
/// follows it, the value between the quotes that follow the `=`.
pub open spec fn attribute_at(s: Seq<char>, pos: int) -> Result<(int, AttributeModel), FailureModel> {
    match key_end(s, pos) {
        Ok(k) => if k < s.len() && s[k] == '=' {
            match value_end(s, k + 1) {
                Ok(end) => Ok(
                    (
                        end,
                        AttributeModel {
                            key: s.subrange(pos, k),
                            value: Some(s.subrange(k + 2, end - 1)),
                        },
                    ),
                ),
                Err(f) => Err(f),
            }
        } else {
            Ok((k, AttributeModel { key: s.subrange(pos, k), value: None }))
        },
        Err(f) => Err(f),
    }
}

/// The entries of an attribute list from `pos` on, behind the entries `before`,
/// and where the list ends: behind its `)`. Blank space and commas between the
/// entries count for nothing. An entry that starts with `//` is a comment up to
/// the end of its line; any other entry is an attribute. (The bounds on where an
/// entry ends always hold, as `lemma_attribute_entries_go_forward` shows.)
pub open spec fn attribute_entries(s: Seq<char>, pos: int, before: Seq<NodeModel>) -> Result<
    (int, Seq<NodeModel>),
    FailureModel,
>
    decreases s.len() - pos,
{
    let p = run_end(s, pos, CharClass::Separator);
    if p < 0 || p >= s.len() {
        fail(p, FailureKind::UnexpectedEndOfInput)
    } else if s[p] == ')' {
        Ok((p + 1, before))
    } else if comment_marker_at(s, p) {
        match dev_comment_end(s, p) {
            Ok(end) => if pos < end <= s.len() {
                attribute_entries(
                    s,
                    end,
                    before.push(
                        NodeModel::Comment(
                            CommentModel { text: s.subrange(p + 2, end), is_dev: true },
                        ),
                    ),
                )
            } else {
                fail(p, FailureKind::UnexpectedEndOfInput)
            },
            Err(f) => Err(f),
        }
    } else {
        match attribute_at(s, p) {
            Ok((end, attribute)) => if pos < end <= s.len() {
                attribute_entries(s, end, before.push(NodeModel::Attribute(attribute)))
            } else {
                fail(p, FailureKind::UnexpectedEndOfInput)
            },
            Err(f) => Err(f),
        }
    }
}

/// The attribute list that starts with the `(` at `pos`.
pub open spec fn attribute_list(s: Seq<char>, pos: int) -> Result<
    (int, Seq<NodeModel>),
    FailureModel,
> {
    if 0 <= pos < s.len() && s[pos] == '(' {
        attribute_entries(s, pos + 1, Seq::empty())
    } else {
        fail(pos, FailureKind::UnexpectedToken)
    }
}

/// Reads an attribute at `pos`.
pub fn attribute_node_at(s: &[char], pos: usize) -> (r: Result<(usize, AttributeNode), Failure>)
    requires
        pos <= s@.len(),
    ensures
        match r {
            Ok((end, node)) => attribute_at(s@, pos as int) == Ok::<_, FailureModel>(
                (end as int, node@),
            ) && pos < end <= s@.len() && node@.key.len() > 0,
            Err(f) => attribute_at(s@, pos as int) == Err::<(int, AttributeModel), _>(f@) && f.at
                <= s@.len(),
        },
{
    match process_attribute_key_at(s, pos) {
        Ok(k) => {
            let key = collect(s, pos, k);
            if k < s.len() && s[k] == '=' {
                match process_attribute_value_at(s, k + 1) {
                    Ok(end) => Ok(
                        (end, AttributeNode { key, value: Some(collect(s, k + 2, end - 1)) }),
                    ),
                    Err(f) => Err(f),
                }
            } else {
                Ok((k, AttributeNode { key, value: None }))
            }
        },
        Err(f) => Err(f),
    }
}

/// Reads an attribute list at `pos`: `(`, the entries and `)`.
pub fn attribute_nodes_at(s: &[char], pos: usize) -> (r: Result<(usize, Vec<HsmlNode>), Failure>)
    requires
        pos <= s@.len(),
    ensures
        match r {
            Ok((end, nodes)) => attribute_list(s@, pos as int) == Ok::<_, FailureModel>(
                (end as int, nodes_model(nodes@)),
            ) && pos < end <= s@.len() && forall|i: int|
                0 <= i < nodes_model(nodes@).len() ==> attribute_entry_well_formed(
                    #[trigger] nodes_model(nodes@)[i],
                ),
            Err(f) => attribute_list(s@, pos as int) == Err::<(int, Seq<NodeModel>), _>(f@)
                && f.at <= s@.len(),
        },
{
    if !(pos < s.len() && s[pos] == '(') {
        return Err(Failure { at: pos, kind: FailureKind::UnexpectedToken });
    }
    let mut nodes: Vec<HsmlNode> = Vec::new();
    let mut i: usize = pos + 1;
    loop
        invariant
            pos < i <= s@.len(),
            s@[pos as int] == '(',
            attribute_list(s@, pos as int) == attribute_entries(s@, i as int, nodes_model(nodes@)),
            forall|j: int|
                0 <= j < nodes_model(nodes@).len() ==> attribute_entry_well_formed(
                    #[trigger] nodes_model(nodes@)[j],
                ),
        decreases s@.len() - i,
    {
        let p = skip_run(s, i, CharClass::Separator);
        if p >= s.len() {
            return Err(Failure { at: p, kind: FailureKind::UnexpectedEndOfInput });
        }
        if s[p] == ')' {
            return Ok((p + 1, nodes));
        }
        if has_comment_marker(s, p) {
            match process_dev_comment_at(s, p) {
                Ok(end) => {
                    let comment = CommentNode { text: collect(s, p + 2, end), is_dev: true };
                    proof {
                        lemma_nodes_model_push(nodes@, HsmlNode::Comment(comment));
                    }
                    nodes.push(HsmlNode::Comment(comment));
                    i = end;
                },
                Err(f) => {
                    return Err(f);
                },
            }
        } else {
            match attribute_node_at(s, p) {
                Ok((end, attribute)) => {
                    proof {
                        lemma_nodes_model_push(nodes@, HsmlNode::Attribute(attribute));
                    }
                    nodes.push(HsmlNode::Attribute(attribute));
                    i = end;
                },
                Err(f) => {
                    return Err(f);
                },
            }
        }
    }
}

/// Reads an attribute from the start of `input`, and gives the rest of the input
/// and the attribute as a node. The context is not touched.
pub fn attribute_node<'a>(input: &'a str, context: &mut HsmlProcessContext) -> (r: Result<
    (&'a str, AttributeNode),
    ParseFailure,
>)
    ensures
        is_node_outcome(r, on_rest(input@, attribute_at(input@, 0))),
        *final(context) == *old(context),
{
    let chars = to_chars(input);
    match attribute_node_at(chars.as_slice(), 0) {
        Ok((end, node)) => Ok((rest_from(input, chars.len(), end), node)),
        Err(f) => Err(failure_on(input, chars.len(), f)),
    }
}

/// Reads an attribute list from the start of `input`, and gives what follows its
/// `)` and the entries of the list in their order. The context is not touched.
pub fn attribute_nodes<'a>(input: &'a str, context: &mut HsmlProcessContext) -> (r: Result<
    (&'a str, Vec<HsmlNode>),
    ParseFailure,
>)
    ensures
        match r {
            Ok((rest, nodes)) => on_rest(input@, attribute_list(input@, 0)) == Ok::<
                _,
                (Seq<char>, FailureKind),
            >((rest@, nodes_model(nodes@))),
            Err(e) => on_rest(input@, attribute_list(input@, 0)) == Err::<
                (Seq<char>, Seq<NodeModel>),
                _,
            >(e@),
        },
        *final(context) == *old(context),
{
    let chars = to_chars(input);
    match attribute_nodes_at(chars.as_slice(), 0) {
        Ok((end, nodes)) => Ok((rest_from(input, chars.len(), end), nodes)),
        Err(f) => Err(failure_on(input, chars.len(), f)),
    }
}

} // verus!
