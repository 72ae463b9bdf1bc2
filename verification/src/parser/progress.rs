use vstd::prelude::*;
use crate::parser::attribute::node::{attribute_at, attribute_entries, attribute_list};
use crate::parser::attribute::process::{attribute_end, key_end, key_run_end, value_end};
use crate::parser::class::process::{class_end, class_name_end};
use crate::parser::comment::node::CommentModel;
use crate::parser::comment::process::{
    comment_marker_at, dev_comment_end, native_comment_end,
};
use crate::parser::failure::FailureModel;
use crate::parser::id::process::id_end;
use crate::parser::indent::{established, line_kind, LineKind};
use crate::parser::model::NodeModel;
use crate::parser::parse::document;
use crate::parser::scan::{
    find_closing, lemma_find_closing, lemma_line_end, lemma_run_end, line_end, line_ending_at,
    run_end, CharClass,
};
use crate::parser::tag::node::{empty_head, head_at, node_at, tag_at, tag_name_at, HeadModel};
use crate::parser::tag::process::tag_name_end;
use crate::parser::text::process::{
    block_end, block_prefix, block_start, dedent, line_ending_len, text_block_end, text_end,
};

verus! {

/// Whether reading a token at `pos` went forward: on success it ended behind
/// `pos` and inside `s`, on failure it stopped at or behind `pos` and inside `s`.
pub open spec fn went_forward(s: Seq<char>, pos: int, r: Result<int, FailureModel>) -> bool {
    match r {
        Ok(end) => pos < end <= s.len(),
        Err(f) => pos <= f.at <= s.len(),
    }
}

/// Whether reading a value at `pos` went forward.
pub open spec fn read_forward<T>(s: Seq<char>, pos: int, r: Result<(int, T), FailureModel>) -> bool {
    match r {
        Ok((end, _)) => pos < end <= s.len(),
        Err(f) => pos <= f.at <= s.len(),
    }
}

/// Whether reading a tag or a node at `pos` went forward.
pub open spec fn node_forward<T>(
    s: Seq<char>,
    pos: int,
    r: Result<(int, T, Option<Seq<char>>), FailureModel>,
) -> bool {
    match r {
        Ok((end, _, _)) => pos < end <= s.len(),
        Err(f) => pos <= f.at <= s.len(),
    }
}

/// Reading a tag name goes forward.
pub proof fn lemma_tag_name_goes_forward(s: Seq<char>, pos: int)
    requires
        0 <= pos <= s.len(),
    ensures
        went_forward(s, pos, tag_name_end(s, pos)),
{
    if pos < s.len() {
        lemma_run_end(s, pos + 1, CharClass::TagName);
    }
}

/// Reading an id goes forward.
pub proof fn lemma_id_goes_forward(s: Seq<char>, pos: int)
    requires
        0 <= pos <= s.len(),
    ensures
        went_forward(s, pos, id_end(s, pos)),
{
    if pos < s.len() {
        lemma_run_end(s, pos + 1, CharClass::Identifier);
    }
}

/// A class name ends at or behind where it goes on, inside the input.
pub proof fn lemma_class_name_end(s: Seq<char>, pos: int)
    requires
        0 <= pos <= s.len(),
    ensures
        match class_name_end(s, pos) {
            Ok(end) => pos <= end <= s.len(),
            Err(f) => pos <= f.at <= s.len(),
        },
    decreases s.len() - pos,
{
    if pos < s.len() {
        lemma_find_closing(s, pos + 1, ']');
        let closing = find_closing(s, pos + 1, ']');
        if s[pos] == '[' && closing is Some {
            lemma_class_name_end(s, closing->0 + 1);
        } else {
            lemma_class_name_end(s, pos + 1);
        }
    }
}

/// Reading a class goes forward.
pub proof fn lemma_class_goes_forward(s: Seq<char>, pos: int)
    requires
        0 <= pos <= s.len(),
    ensures
        went_forward(s, pos, class_end(s, pos)),
{
    if pos < s.len() {
        lemma_class_name_end(s, pos + 1);
    }
}

/// Reading the text of a tag, or a comment, goes forward.
pub proof fn lemma_line_tokens_go_forward(s: Seq<char>, pos: int)
    requires
        0 <= pos <= s.len(),
    ensures
        went_forward(s, pos, text_end(s, pos)),
        went_forward(s, pos, dev_comment_end(s, pos)),
        went_forward(s, pos, native_comment_end(s, pos)),
{
    if pos + 1 <= s.len() {
        lemma_line_end(s, pos + 1);
    }
    if pos + 2 <= s.len() {
        lemma_line_end(s, pos + 2);
    }
    if pos + 3 <= s.len() {
        lemma_line_end(s, pos + 3);
    }
}

/// A run of key characters ends at or behind where it goes on, inside the input.
pub proof fn lemma_key_run_end(s: Seq<char>, pos: int, open: nat)
    requires
        0 <= pos <= s.len(),
    ensures
        pos <= key_run_end(s, pos, open) <= s.len(),
    decreases s.len() - pos,
{
    if pos < s.len() {
        lemma_key_run_end(s, pos + 1, open + 1);
        lemma_key_run_end(s, pos + 1, open);
        if open > 0 {
            lemma_key_run_end(s, pos + 1, (open - 1) as nat);
        }
    }
}

/// Reading an attribute, its key or its value goes forward.
pub proof fn lemma_attribute_goes_forward(s: Seq<char>, pos: int)
    requires
        0 <= pos <= s.len(),
    ensures
        went_forward(s, pos, key_end(s, pos)),
        went_forward(s, pos, value_end(s, pos)),
        went_forward(s, pos, attribute_end(s, pos)),
        read_forward(s, pos, attribute_at(s, pos)),
{
    lemma_key_run_end(s, pos, 0);
    if pos < s.len() {
        lemma_find_closing(s, pos + 1, s[pos]);
    }
    match key_end(s, pos) {
        Ok(k) => {
            if k + 1 < s.len() {
                lemma_find_closing(s, k + 2, s[k + 1]);
            }
        },
        Err(_) => {},
    }
}

/// Reading the entries of an attribute list goes forward.
pub proof fn lemma_attribute_entries_go_forward(s: Seq<char>, pos: int, before: Seq<NodeModel>)
    requires
        0 <= pos <= s.len(),
    ensures
        read_forward(s, pos, attribute_entries(s, pos, before)),
    decreases s.len() - pos,
{
    lemma_run_end(s, pos, CharClass::Separator);
    let p = run_end(s, pos, CharClass::Separator);
    if p < s.len() && s[p] != ')' {
        lemma_line_tokens_go_forward(s, p);
        lemma_attribute_goes_forward(s, p);
        if comment_marker_at(s, p) {
            if dev_comment_end(s, p) is Ok {
                let end = dev_comment_end(s, p)->Ok_0;
                lemma_attribute_entries_go_forward(
                    s,
                    end,
                    before.push(
                        NodeModel::Comment(
                            CommentModel { text: s.subrange(p + 2, end), is_dev: true },
                        ),
                    ),
                );
            }
        } else if attribute_at(s, p) is Ok {
            let (end, attribute) = attribute_at(s, p)->Ok_0;
            lemma_attribute_entries_go_forward(s, end, before.push(NodeModel::Attribute(attribute)));
        }
    }
}

/// Reading an attribute list goes forward.
pub proof fn lemma_attribute_list_goes_forward(s: Seq<char>, pos: int)
    requires
        0 <= pos <= s.len(),
    ensures
        read_forward(s, pos, attribute_list(s, pos)),
{
    if pos < s.len() {
        lemma_attribute_entries_go_forward(s, pos + 1, Seq::empty());
    }
}

/// A text block ends at or behind the start of any of its lines, inside the
/// input.
pub proof fn lemma_block_end(s: Seq<char>, pos: int, prefix: Seq<char>)
    requires
        0 <= pos <= s.len(),
    ensures
        pos <= block_end(s, pos, prefix) <= s.len(),
    decreases s.len() - pos,
{
    lemma_line_end(s, pos);
    let end = line_end(s, pos);
    let next = end + line_ending_len(s, end);
    if end < s.len() && next <= s.len() {
        lemma_block_end(s, next, prefix);
    }
}

/// Reading a text block goes forward.
pub proof fn lemma_text_block_goes_forward(s: Seq<char>, pos: int, prefix: Seq<char>)
    requires
        0 <= pos <= s.len(),
    ensures
        went_forward(s, pos, text_block_end(s, pos, prefix)),
{
    if pos < s.len() && s[pos] == '.' && line_ending_at(s, pos + 1) {
        lemma_block_end(
            s,
            pos + 1 + line_ending_len(s, pos + 1),
            prefix,
        );
    }
}

/// What follows the name of a tag is read without going back: the tag ends at or
/// behind `pos`, inside the input.
pub proof fn lemma_head_goes_forward(s: Seq<char>, pos: int, depth: int, head: HeadModel)
    requires
        0 <= pos <= s.len(),
    ensures
        match head_at(s, pos, depth, head) {
            Ok((end, _)) => pos <= end <= s.len(),
            Err(f) => pos <= f.at <= s.len(),
        },
    decreases s.len() - pos, 0nat,
{
    lemma_id_goes_forward(s, pos);
    lemma_class_goes_forward(s, pos);
    lemma_attribute_list_goes_forward(s, pos);
    let prefix = block_prefix(head.unit, depth);
    lemma_text_block_goes_forward(s, pos, prefix);
    if pos < s.len() {
        lemma_line_end(s, pos + 1);
    }
    if pos >= s.len() {
    } else if s[pos] == '#' {
        if head.id is None && id_end(s, pos) is Ok {
            let end = id_end(s, pos)->Ok_0;
            lemma_head_goes_forward(
                s,
                end,
                depth,
                HeadModel { id: Some(s.subrange(pos + 1, end)), ..head },
            );
        }
    } else if s[pos] == '.' && line_ending_at(s, pos + 1) {
        if text_block_end(s, pos, prefix) is Ok {
            let end = text_block_end(s, pos, prefix)->Ok_0;
            lemma_head_goes_forward(
                s,
                end,
                depth,
                HeadModel {
                    text: Some(
                        dedent(s, block_start(s, pos, prefix), end, prefix),
                    ),
                    ..head
                },
            );
        }
    } else if s[pos] == '.' {
        if class_end(s, pos) is Ok {
            let end = class_end(s, pos)->Ok_0;
            lemma_head_goes_forward(
                s,
                end,
                depth,
                HeadModel { classes: head.classes.push(s.subrange(pos + 1, end)), ..head },
            );
        }
    } else if s[pos] == '(' {
        if attribute_list(s, pos) is Ok {
            let (end, entries) = attribute_list(s, pos)->Ok_0;
            lemma_head_goes_forward(
                s,
                end,
                depth,
                HeadModel { attributes: Some(entries), ..head },
            );
        }
    } else if s[pos] == ' ' {
        let end = line_end(s, pos + 1);
        lemma_head_goes_forward(
            s,
            end,
            depth,
            HeadModel { text: Some(s.subrange(pos + 1, end)), ..head },
        );
    } else if line_ending_at(s, pos) {
        lemma_run_end(s, pos + 1, CharClass::LineBreak);
        let line = run_end(s, pos, CharClass::LineBreak);
        lemma_run_end(s, line, CharClass::Indent);
        let start = run_end(s, line, CharClass::Indent);
        let indent = s.subrange(line, start);
        if line_kind(indent, head.unit, depth) == LineKind::Child {
            let unit = established(indent, head.unit);
            lemma_node_goes_forward(s, start, depth + 1, unit);
            if node_at(s, start, depth + 1, unit) is Ok {
                let (end, child, unit_after) = node_at(s, start, depth + 1, unit)->Ok_0;
                lemma_head_goes_forward(
                    s,
                    end,
                    depth,
                    HeadModel { children: head.children.push(child), unit: unit_after, ..head },
                );
            }
        }
    }
}

/// Reading a tag goes forward.
pub proof fn lemma_tag_goes_forward(s: Seq<char>, pos: int, depth: int, unit: Option<Seq<char>>)
    requires
        0 <= pos <= s.len(),
    ensures
        node_forward(s, pos, tag_at(s, pos, depth, unit)),
    decreases s.len() - pos, 1nat,
{
    lemma_tag_name_goes_forward(s, pos);
    if tag_name_at(s, pos) is Ok {
        let (name_end, name) = tag_name_at(s, pos)->Ok_0;
        let first = empty_head(unit);
        lemma_head_goes_forward(s, name_end, depth, first);
        if name_end == pos {
            lemma_divless_head_goes_forward(s, pos, depth, first);
        }
    }
}

/// Behind `.` or `#`, reading the head consumes at least that character.
proof fn lemma_divless_head_goes_forward(s: Seq<char>, pos: int, depth: int, head: HeadModel)
    requires
        0 <= pos < s.len(),
        s[pos] == '.' || s[pos] == '#',
        head.id is None,
    ensures
        match head_at(s, pos, depth, head) {
            Ok((end, _)) => pos < end <= s.len(),
            Err(f) => pos <= f.at <= s.len(),
        },
    decreases s.len() - pos, 0nat,
{
    lemma_id_goes_forward(s, pos);
    lemma_class_goes_forward(s, pos);
    let prefix = block_prefix(head.unit, depth);
    lemma_text_block_goes_forward(s, pos, prefix);
    if s[pos] == '#' {
        if id_end(s, pos) is Ok {
            let end = id_end(s, pos)->Ok_0;
            lemma_head_goes_forward(
                s,
                end,
                depth,
                HeadModel { id: Some(s.subrange(pos + 1, end)), ..head },
            );
        }
    } else if line_ending_at(s, pos + 1) {
        if text_block_end(s, pos, prefix) is Ok {
            let end = text_block_end(s, pos, prefix)->Ok_0;
            lemma_head_goes_forward(
                s,
                end,
                depth,
                HeadModel {
                    text: Some(
                        dedent(s, block_start(s, pos, prefix), end, prefix),
                    ),
                    ..head
                },
            );
        }
    } else {
        if class_end(s, pos) is Ok {
            let end = class_end(s, pos)->Ok_0;
            lemma_head_goes_forward(
                s,
                end,
                depth,
                HeadModel { classes: head.classes.push(s.subrange(pos + 1, end)), ..head },
            );
        }
    }
}

/// Reading a node goes forward.
pub proof fn lemma_node_goes_forward(s: Seq<char>, pos: int, depth: int, unit: Option<Seq<char>>)
    requires
        0 <= pos <= s.len(),
    ensures
        node_forward(s, pos, node_at(s, pos, depth, unit)),
    decreases s.len() - pos, 2nat,
{
    lemma_line_tokens_go_forward(s, pos);
    if pos + 2 <= s.len() {
        lemma_line_end(s, pos + 2);
    }
    if pos + 3 <= s.len() {
        lemma_line_end(s, pos + 3);
    }
    lemma_tag_goes_forward(s, pos, depth, unit);
}

/// A failure of reading a document lies inside the document.
pub proof fn lemma_document_fails_inside(
    s: Seq<char>,
    pos: int,
    unit: Option<Seq<char>>,
    before: Seq<NodeModel>,
)
    requires
        0 <= pos <= s.len(),
    ensures
        document(s, pos, unit, before) matches Err(f) ==> pos <= f.at <= s.len(),
    decreases s.len() - pos,
{
    lemma_run_end(s, pos, CharClass::Blank);
    let p = run_end(s, pos, CharClass::Blank);
    if p < s.len() {
        lemma_node_goes_forward(s, p, 0, unit);
        if node_at(s, p, 0, unit) is Ok {
            let (end, node, unit_after) = node_at(s, p, 0, unit)->Ok_0;
            lemma_document_fails_inside(s, end, unit_after, before.push(node));
        }
    }
}

} // verus!
