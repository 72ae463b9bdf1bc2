use vstd::prelude::*;
use vstd::string::*;
use crate::parser::attribute::node::{attribute_list, attribute_nodes_at};
use crate::parser::class::node::ClassNode;
use crate::parser::class::process::{class_end, process_class_at};
use crate::parser::comment::node::{CommentModel, CommentNode};
use crate::parser::comment::process::{
    comment_marker_at, has_comment_marker, has_native_marker, native_marker_at,
};
use crate::parser::failure::{fail, suffix, Failure, FailureKind, FailureModel, ParseFailure};
use crate::parser::id::node::IdNode;
use crate::parser::id::process::{id_end, process_id_at};
use crate::parser::indent::{classify_line, established, line_kind, LineKind};
use crate::parser::input::{failure_on, rest_from};
use crate::parser::model::{
    class_names, document_well_formed, entries_well_formed,
    lemma_nodes_model,
    lemma_nodes_model_push, node_well_formed, nodes_model, tag_model, tag_well_formed, NodeModel,
    TagModel,
};
use crate::parser::scan::{
    collect, find_line_end, is_line_ending_at, lemma_run_end, line_end, line_ending_at, run_end,
    skip_run, to_chars, CharClass,
};
use crate::parser::tag::process::{process_tag_at, tag_name_end};
use crate::parser::text::node::TextNode;
use crate::parser::text::process::{
    block_prefix, block_prefix_chars, block_start, dedent, dedent_lines, process_text_block_at,
    text_block_end, unit_chars,
};
use crate::parser::{ContextModel, HsmlNode, HsmlProcessContext};

verus! {

/// A tag with what its head and the lines below it gave. A list that would be
/// empty is absent.
#[derive(Debug, PartialEq)]
pub struct TagNode {
    pub tag: String,
    pub id: Option<IdNode>,
    pub classes: Option<Vec<ClassNode>>,
    pub attributes: Option<Vec<HsmlNode>>,
    pub text: Option<TextNode>,
    pub children: Option<Vec<HsmlNode>>,
}

impl View for TagNode {
    type V = TagModel;

    open spec fn view(&self) -> TagModel {
        tag_model(*self)
    }
}

/// What has been read of a tag after its name, and the document's indentation
/// unit as far as it is known.
pub struct HeadModel {
    pub id: Option<Seq<char>>,
    pub classes: Seq<Seq<char>>,
    pub attributes: Option<Seq<NodeModel>>,
    pub text: Option<Seq<char>>,
    pub children: Seq<NodeModel>,
    pub unit: Option<Seq<char>>,
}

/// The head of a tag of which nothing but the name has been read.
pub open spec fn empty_head(unit: Option<Seq<char>>) -> HeadModel {
    HeadModel {
        id: None,
        classes: Seq::empty(),
        attributes: None,
        text: None,
        children: Seq::empty(),
        unit,
    }
}

/// A list as a tag holds it: absent if it is empty.
pub open spec fn present<T>(list: Seq<T>) -> Option<Seq<T>> {
    if list.len() == 0 {
        None
    } else {
        Some(list)
    }
}

/// The tag with the name `name` and what `head` holds.
pub open spec fn finished(name: Seq<char>, head: HeadModel) -> TagModel {
    TagModel {
        tag: name,
        id: head.id,
        classes: present(head.classes),
        attributes: match head.attributes {
            Some(a) => present(a),
            None => None,
        },
        text: head.text,
        children: present(head.children),
    }
}

/// The name of the tag that starts at `pos`, and where what follows the name
/// starts. Where `.` or `#` stands, the name is `div` and nothing is consumed.
pub open spec fn tag_name_at(s: Seq<char>, pos: int) -> Result<(int, Seq<char>), FailureModel> {
    if 0 <= pos < s.len() && (s[pos] == '.' || s[pos] == '#') {
        Ok((pos, "div"@))
    } else {
        match tag_name_end(s, pos) {
            Ok(end) => Ok((end, s.subrange(pos, end))),
            Err(f) => Err(f),
        }
    }
}

/// What follows the name of a tag at depth `depth`, read from `pos` on into
/// `head`, and where the tag ends. What stands at `pos` decides:
/// `#` starts an id, and is a failure if the tag has one;
/// `.` before a line ending starts a text block, which becomes the text, any
/// other `.` a class;
/// `(` starts an attribute list, which takes the place of an earlier one;
/// a space starts the text, which is the rest of the line;
/// a line ending is followed by a child of the tag, if the next line is indented
/// one level deeper than the tag, and ends the tag if that line is indented less
/// or not at all (then the line ending is not consumed);
/// anything else, and the end of the input, ends the tag.
/// (The bounds on where a part ends always hold, as `lemma_head_goes_forward`
/// and the lemmas beside it show.)
pub open spec fn head_at(s: Seq<char>, pos: int, depth: int, head: HeadModel) -> Result<
    (int, HeadModel),
    FailureModel,
>
    decreases s.len() - pos, 0nat,
{
    if pos < 0 || pos >= s.len() {
        Ok((pos, head))
    } else if s[pos] == '#' {
        if head.id is Some {
            fail(pos, FailureKind::DuplicateId)
        } else {
            match id_end(s, pos) {
                Ok(end) => if pos < end <= s.len() {
                    head_at(
                        s,
                        end,
                        depth,
                        HeadModel { id: Some(s.subrange(pos + 1, end)), ..head },
                    )
                } else {
                    fail(pos, FailureKind::MalformedId)
                },
                Err(f) => Err(f),
            }
        }
    } else if s[pos] == '.' && line_ending_at(s, pos + 1) {
        let prefix = block_prefix(head.unit, depth);
        match text_block_end(s, pos, prefix) {
            Ok(end) => if pos < end <= s.len() {
                head_at(
                    s,
                    end,
                    depth,
                    HeadModel {
                        text: Some(dedent(s, block_start(s, pos, prefix), end, prefix)),
                        ..head
                    },
                )
            } else {
                fail(pos, FailureKind::UnexpectedEndOfInput)
            },
            Err(f) => Err(f),
        }
    } else if s[pos] == '.' {
        match class_end(s, pos) {
            Ok(end) => if pos < end <= s.len() {
                head_at(
                    s,
                    end,
                    depth,
                    HeadModel { classes: head.classes.push(s.subrange(pos + 1, end)), ..head },
                )
            } else {
                fail(pos, FailureKind::UnexpectedEndOfInput)
            },
            Err(f) => Err(f),
        }
    } else if s[pos] == '(' {
        match attribute_list(s, pos) {
            Ok((end, entries)) => if pos < end <= s.len() {
                head_at(s, end, depth, HeadModel { attributes: Some(entries), ..head })
            } else {
                fail(pos, FailureKind::UnexpectedEndOfInput)
            },
            Err(f) => Err(f),
        }
    } else if s[pos] == ' ' {
        let end = line_end(s, pos + 1);
        if pos < end <= s.len() {
            head_at(s, end, depth, HeadModel { text: Some(s.subrange(pos + 1, end)), ..head })
        } else {
            fail(pos, FailureKind::UnexpectedEndOfInput)
        }
    } else if line_ending_at(s, pos) {
        let line = run_end(s, pos, CharClass::LineBreak);
        let start = run_end(s, line, CharClass::Indent);
        let indent = s.subrange(line, start);
        match line_kind(indent, head.unit, depth) {
            LineKind::Flush => Ok((pos, head)),
            LineKind::Inconsistent => fail(pos, FailureKind::InconsistentIndentation),
            LineKind::Shallower => Ok(
                (pos, HeadModel { unit: established(indent, head.unit), ..head }),
            ),
            LineKind::Child => if pos < start <= s.len() {
                match node_at(s, start, depth + 1, established(indent, head.unit)) {
                    Ok((end, child, unit)) => if pos < end <= s.len() {
                        head_at(
                            s,
                            end,
                            depth,
                            HeadModel { children: head.children.push(child), unit, ..head },
                        )
                    } else {
                        fail(pos, FailureKind::UnexpectedEndOfInput)
                    },
                    Err(f) => Err(f),
                }
            } else {
                fail(pos, FailureKind::UnexpectedEndOfInput)
            },
        }
    } else {
        Ok((pos, head))
    }
}

/// The tag that starts at `pos` at depth `depth`, where it ends, and the
/// document's indentation unit after it: the name, and what `head_at` reads
/// behind it.
pub open spec fn tag_at(s: Seq<char>, pos: int, depth: int, unit: Option<Seq<char>>) -> Result<
    (int, TagModel, Option<Seq<char>>),
    FailureModel,
>
    decreases s.len() - pos, 1nat,
{
    match tag_name_at(s, pos) {
        Ok((name_end, name)) => if pos <= name_end <= s.len() {
            match head_at(s, name_end, depth, empty_head(unit)) {
                Ok((end, head)) => Ok((end, finished(name, head), head.unit)),
                Err(f) => Err(f),
            }
        } else {
            fail(pos, FailureKind::UnexpectedEndOfInput)
        },
        Err(f) => Err(f),
    }
}

/// The node that starts at `pos` at depth `depth`, where it ends, and the
/// document's indentation unit after it: a comment that is written into the
/// output if `//!` stands there, one that is left out if `//` stands there, and
/// else a tag.
pub open spec fn node_at(s: Seq<char>, pos: int, depth: int, unit: Option<Seq<char>>) -> Result<
    (int, NodeModel, Option<Seq<char>>),
    FailureModel,
>
    decreases s.len() - pos, 2nat,
{
    if native_marker_at(s, pos) {
        let end = line_end(s, pos + 3);
        Ok(
            (
                end,
                NodeModel::Comment(CommentModel { text: s.subrange(pos + 3, end), is_dev: false }),
                unit,
            ),
        )
    } else if comment_marker_at(s, pos) {
        let end = line_end(s, pos + 2);
        Ok(
            (
                end,
                NodeModel::Comment(CommentModel { text: s.subrange(pos + 2, end), is_dev: true }),
                unit,
            ),
        )
    } else {
        match tag_at(s, pos, depth, unit) {
            Ok((end, tag, unit_after)) => Ok((end, NodeModel::Tag(tag), unit_after)),
            Err(f) => Err(f),
        }
    }
}

/// The indentation unit as plain values.
pub open spec fn unit_model(unit: Option<Vec<char>>) -> Option<Seq<char>> {
    match unit {
        Some(u) => Some(u@),
        None => None,
    }
}

/// What the parts of a tag that have been read are, as plain values.
pub open spec fn head_model(
    id: Option<IdNode>,
    classes: Seq<ClassNode>,
    attributes: Option<Vec<HsmlNode>>,
    text: Option<TextNode>,
    children: Seq<HsmlNode>,
    unit: Option<Vec<char>>,
) -> HeadModel {
    HeadModel {
        id: match id {
            Some(i) => Some(i@),
            None => None,
        },
        classes: class_names(classes),
        attributes: match attributes {
            Some(a) => Some(nodes_model(a@)),
            None => None,
        },
        text: match text {
            Some(t) => Some(t@),
            None => None,
        },
        children: nodes_model(children),
        unit: unit_model(unit),
    }
}

/// Makes the tag out of its name and what was read behind the name. A list that
/// is empty becomes absent.
fn finish_tag(
    tag: String,
    id: Option<IdNode>,
    classes: Vec<ClassNode>,
    attributes: Option<Vec<HsmlNode>>,
    text: Option<TextNode>,
    children: Vec<HsmlNode>,
) -> (node: TagNode)
    requires
        tag@.len() > 0,
        attributes matches Some(a) ==> entries_well_formed(nodes_model(a@)),
        document_well_formed(nodes_model(children@)),
    ensures
        node@ == finished(tag@, head_model(id, classes@, attributes, text, children@, None)),
        tag_well_formed(node@),
{
    proof {
        lemma_nodes_model(children@);
        if attributes is Some {
            lemma_nodes_model(attributes->0@);
        }
    }
    let classes = if classes.len() == 0 {
        None
    } else {
        Some(classes)
    };
    let attributes = match attributes {
        Some(a) => if a.len() == 0 {
            None
        } else {
            Some(a)
        },
        None => None,
    };
    let children = if children.len() == 0 {
        None
    } else {
        Some(children)
    };
    TagNode { tag, id, classes, attributes, text, children }
}

/// Reads a tag at `pos`, at depth `depth` in a document with the indentation
/// unit `unit`, and gives where the tag ends, the tag and the unit after it.
pub fn tag_node_at(s: &[char], pos: usize, depth: usize, unit: Option<Vec<char>>) -> (r: Result<
    (usize, TagNode, Option<Vec<char>>),
    Failure,
>)
    requires
        pos <= s@.len(),
    ensures
        match r {
            Ok((end, node, unit_after)) => tag_at(s@, pos as int, depth as int, unit_model(unit))
                == Ok::<_, FailureModel>((end as int, node@, unit_model(unit_after))) && pos < end
                <= s@.len() && tag_well_formed(node@),
            Err(f) => tag_at(s@, pos as int, depth as int, unit_model(unit)) == Err::<
                (int, TagModel, Option<Seq<char>>),
                _,
            >(f@) && f.at <= s@.len(),
        },
    decreases s@.len() - pos, 0nat,
{
    let len = s.len();
    let ghost first = empty_head(unit_model(unit));
    let mut known = unit;
    let (start, tag): (usize, String) = if pos < len && (s[pos] == '.' || s[pos] == '#') {
        proof {
            reveal_strlit("div");
        }
        (pos, String::from_str("div"))
    } else {
        match process_tag_at(s, pos) {
            Ok(end) => (end, collect(s, pos, end)),
            Err(f) => {
                return Err(f);
            },
        }
    };
    let mut id_node: Option<IdNode> = None;
    let mut class_nodes: Vec<ClassNode> = Vec::new();
    let mut attribute_nodes: Option<Vec<HsmlNode>> = None;
    let mut text_node: Option<TextNode> = None;
    let mut child_nodes: Vec<HsmlNode> = Vec::new();
    let mut i: usize = start;
    assert(class_names(class_nodes@) =~= Seq::<Seq<char>>::empty());
    loop
        invariant
            len == s@.len(),
            pos <= start <= i <= len,
            first == empty_head(unit_model(unit)),
            i == pos ==> pos < len && (s@[pos as int] == '.' || s@[pos as int] == '#'),
            tag_name_at(s@, pos as int) == Ok::<_, FailureModel>((start as int, tag@)),
            tag@.len() > 0,
            head_at(s@, start as int, depth as int, first) == head_at(
                s@,
                i as int,
                depth as int,
                head_model(id_node, class_nodes@, attribute_nodes, text_node, child_nodes@, known),
            ),
            attribute_nodes matches Some(a) ==> entries_well_formed(nodes_model(a@)),
            document_well_formed(nodes_model(child_nodes@)),
        decreases len - i,
    {
        if i >= len {
            let node = finish_tag(tag, id_node, class_nodes, attribute_nodes, text_node, child_nodes);
            return Ok((i, node, known));
        }
        let c = s[i];
        if c == '#' {
            if id_node.is_some() {
                return Err(Failure { at: i, kind: FailureKind::DuplicateId });
            }
            match process_id_at(s, i) {
                Ok(end) => {
                    id_node = Some(IdNode { id: collect(s, i + 1, end) });
                    i = end;
                },
                Err(f) => {
                    return Err(f);
                },
            }
        } else if c == '.' && is_line_ending_at(s, i + 1) {
            let prefix = block_prefix_chars(&known, depth);
            match process_text_block_at(s, i, prefix.as_slice()) {
                Ok((from, end)) => {
                    text_node = Some(
                        TextNode { text: dedent_lines(s, from, end, prefix.as_slice()) },
                    );
                    i = end;
                },
                Err(f) => {
                    return Err(f);
                },
            }
        } else if c == '.' {
            match process_class_at(s, i) {
                Ok(end) => {
                    let class = ClassNode { name: collect(s, i + 1, end) };
                    proof {
                        assert(class_names(class_nodes@.push(class)) =~= class_names(
                            class_nodes@,
                        ).push(class@));
                    }
                    class_nodes.push(class);
                    i = end;
                },
                Err(f) => {
                    return Err(f);
                },
            }
        } else if c == '(' {
            match attribute_nodes_at(s, i) {
                Ok((end, nodes)) => {
                    attribute_nodes = Some(nodes);
                    i = end;
                },
                Err(f) => {
                    return Err(f);
                },
            }
        } else if c == ' ' {
            let end = find_line_end(s, i + 1);
            text_node = Some(TextNode { text: collect(s, i + 1, end) });
            i = end;
        } else if is_line_ending_at(s, i) {
            proof {
                lemma_run_end(s@, i + 1, CharClass::LineBreak);
            }
            let line = skip_run(s, i, CharClass::LineBreak);
            let from = skip_run(s, line, CharClass::Indent);
            let kind = classify_line(s, line, from, &known, depth);
            match kind {
                LineKind::Flush => {
                    let node = finish_tag(
                        tag,
                        id_node,
                        class_nodes,
                        attribute_nodes,
                        text_node,
                        child_nodes,
                    );
                    return Ok((i, node, known));
                },
                LineKind::Inconsistent => {
                    return Err(Failure { at: i, kind: FailureKind::InconsistentIndentation });
                },
                LineKind::Shallower => {
                    if known.is_none() {
                        known = Some(
                            vstd::slice::slice_to_vec(vstd::slice::slice_subrange(s, line, from)),
                        );
                    }
                    let node = finish_tag(
                        tag,
                        id_node,
                        class_nodes,
                        attribute_nodes,
                        text_node,
                        child_nodes,
                    );
                    return Ok((i, node, known));
                },
                LineKind::Child => {
                    if known.is_none() {
                        known = Some(
                            vstd::slice::slice_to_vec(vstd::slice::slice_subrange(s, line, from)),
                        );
                    }
                    match parse_node_at(s, from, depth + 1, known) {
                        Ok((end, child, unit_after)) => {
                            proof {
                                lemma_nodes_model_push(child_nodes@, child);
                                lemma_nodes_model(child_nodes@);
                                lemma_nodes_model(child_nodes@.push(child));
                            }
                            child_nodes.push(child);
                            known = unit_after;
                            i = end;
                        },
                        Err(f) => {
                            return Err(f);
                        },
                    }
                },
            }
        } else {
            let node = finish_tag(tag, id_node, class_nodes, attribute_nodes, text_node, child_nodes);
            return Ok((i, node, known));
        }
    }
}

/// Reads a node at `pos`, at depth `depth` in a document with the indentation
/// unit `unit`: a comment or a tag. Gives where the node ends, the node and the
/// unit after it.
pub fn parse_node_at(s: &[char], pos: usize, depth: usize, unit: Option<Vec<char>>) -> (r: Result<
    (usize, HsmlNode, Option<Vec<char>>),
    Failure,
>)
    requires
        pos <= s@.len(),
    ensures
        match r {
            Ok((end, node, unit_after)) => node_at(s@, pos as int, depth as int, unit_model(unit))
                == Ok::<_, FailureModel>((end as int, node@, unit_model(unit_after))) && pos < end
                <= s@.len() && node_well_formed(node@),
            Err(f) => node_at(s@, pos as int, depth as int, unit_model(unit)) == Err::<
                (int, NodeModel, Option<Seq<char>>),
                _,
            >(f@) && f.at <= s@.len(),
        },
    decreases s@.len() - pos, 1nat,
{
    let len = s.len();
    if has_native_marker(s, pos) {
        let end = find_line_end(s, pos + 3);
        let comment = CommentNode { text: collect(s, pos + 3, end), is_dev: false };
        Ok((end, HsmlNode::Comment(comment), unit))
    } else if has_comment_marker(s, pos) {
        let end = find_line_end(s, pos + 2);
        let comment = CommentNode { text: collect(s, pos + 2, end), is_dev: true };
        Ok((end, HsmlNode::Comment(comment), unit))
    } else {
        match tag_node_at(s, pos, depth, unit) {
            Ok((end, tag, unit_after)) => Ok((end, HsmlNode::Tag(tag), unit_after)),
            Err(f) => Err(f),
        }
    }
}

/// What `tag_node` gives for the input `s` under the context `c`: what follows
/// the tag, the tag, and the context afterwards, in which only the unit may be
/// new.
pub open spec fn spec_tag_node(s: Seq<char>, c: ContextModel) -> Result<
    (Seq<char>, TagModel, ContextModel),
    (Seq<char>, FailureKind),
> {
    match tag_at(s, 0, c.level, c.unit) {
        Ok((end, tag, unit)) => Ok((suffix(s, end), tag, ContextModel { level: c.level, unit })),
        Err(f) => Err((suffix(s, f.at), f.kind)),
    }
}

/// Reads a tag from the start of `input`: its name, the rest of its head, and
/// the lines below it that are its children. Gives what follows the tag, and the
/// tag. The context says how deep the tag lies and what the document's
/// indentation unit is; afterwards it holds the unit that the lines of the tag
/// have shown, if it had none. After a failure the context is as it was.
pub fn tag_node<'a>(input: &'a str, context: &mut HsmlProcessContext) -> (r: Result<
    (&'a str, TagNode),
    ParseFailure,
>)
    ensures
        match r {
            Ok((rest, node)) => spec_tag_node(input@, old(context)@) == Ok::<
                _,
                (Seq<char>, FailureKind),
            >((rest@, node@, final(context)@)) && tag_well_formed(node@),
            Err(e) => spec_tag_node(input@, old(context)@) == Err::<
                (Seq<char>, TagModel, ContextModel),
                _,
            >(e@) && *final(context) == *old(context),
        },
{
    let chars = to_chars(input);
    let unit = unit_chars(context);
    match tag_node_at(chars.as_slice(), 0, context.indent_level, unit) {
        Ok((end, node, unit_after)) => {
            context.indent_string = match unit_after {
                Some(u) => Some(collect(u.as_slice(), 0, u.len())),
                None => None,
            };
            assert(final(context)@.unit =~= unit_model(unit_after));
            Ok((rest_from(input, chars.len(), end), node))
        },
        Err(f) => Err(failure_on(input, chars.len(), f)),
    }
}

} // verus!
