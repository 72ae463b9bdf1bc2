use vstd::prelude::*;
use crate::parser::attribute::node::AttributeNode;
use crate::parser::class::node::ClassNode;
use crate::parser::comment::node::CommentNode;
use crate::parser::failure::{fail, Failure, FailureKind, FailureModel, ParseFailure};
use crate::parser::id::node::IdNode;
use crate::parser::input::{is_token_outcome, token_on, token_outcome};
use crate::parser::model::{node_model, nodes_model, NodeModel};
use crate::parser::scan::to_chars;
use crate::parser::tag::node::TagNode;
use crate::parser::text::node::TextNode;

pub mod attribute;
pub mod class;
pub mod comment;
pub mod failure;
pub mod id;
pub mod indent;
pub mod input;
pub mod laws;
pub mod model;
pub mod parse;
pub mod progress;
pub mod scan;
pub mod tag;
pub mod text;

verus! {

/// A whole document: its top-level tags and comments, in source order.
#[derive(Debug, PartialEq)]
pub struct RootNode {
    pub nodes: Vec<HsmlNode>,
}

/// Any node of the tree.
#[derive(Debug, PartialEq)]
pub enum HsmlNode {
    Root(RootNode),
    Tag(TagNode),
    Comment(CommentNode),
    Class(ClassNode),
    Id(IdNode),
    Attribute(AttributeNode),
    Text(TextNode),
}

impl View for HsmlNode {
    type V = NodeModel;

    open spec fn view(&self) -> NodeModel {
        node_model(*self)
    }
}

impl View for RootNode {
    type V = Seq<NodeModel>;

    open spec fn view(&self) -> Seq<NodeModel> {
        nodes_model(self.nodes@)
    }
}

/// What is known of a document's indentation while it is read: how deep the tag
/// that is being read lies, and the document's indentation unit once a first
/// indented line has shown it.
#[derive(Debug)]
pub struct HsmlProcessContext {
    pub indent_level: usize,
    pub indent_string: Option<String>,
}

/// What a context is, as plain values.
pub struct ContextModel {
    pub level: int,
    pub unit: Option<Seq<char>>,
}

impl View for HsmlProcessContext {
    type V = ContextModel;

    open spec fn view(&self) -> ContextModel {
        ContextModel {
            level: self.indent_level as int,
            unit: match self.indent_string {
                Some(u) => Some(u@),
                None => None,
            },
        }
    }
}

impl Default for HsmlProcessContext {
    /// The context at the start of a document: depth 0, no unit yet.
    fn default() -> (r: HsmlProcessContext)
        ensures
            r@ == (ContextModel { level: 0, unit: None }),
    {
        HsmlProcessContext { indent_level: 0, indent_string: None }
    }
}

/// Where the line ending that starts at `pos` ends. A line ending is `\n` or
/// `\r\n`.
pub open spec fn newline_end(s: Seq<char>, pos: int) -> Result<int, FailureModel> {
    if 0 <= pos < s.len() && s[pos] == '\n' {
        Ok(pos + 1)
    } else if 0 <= pos && pos + 1 < s.len() && s[pos] == '\r' && s[pos + 1] == '\n' {
        Ok(pos + 2)
    } else {
        fail(pos, FailureKind::UnexpectedToken)
    }
}

/// Reads a line ending at `pos`.
pub fn process_newline_at(s: &[char], pos: usize) -> (r: Result<usize, Failure>)
    requires
        pos <= s@.len(),
    ensures
        match r {
            Ok(end) => newline_end(s@, pos as int) == Ok::<int, FailureModel>(end as int) && pos
                < end <= s@.len(),
            Err(f) => newline_end(s@, pos as int) == Err::<int, FailureModel>(f@) && f.at == pos,
        },
{
    let len = s.len();
    if pos < len && s[pos] == '\n' {
        Ok(pos + 1)
    } else if len - pos >= 2 && s[pos] == '\r' && s[pos + 1] == '\n' {
        Ok(pos + 2)
    } else {
        Err(Failure { at: pos, kind: FailureKind::UnexpectedToken })
    }
}

/// What `process_newline` gives for the input `s`.
pub open spec fn spec_process_newline(s: Seq<char>) -> Result<
    (Seq<char>, Seq<char>),
    (Seq<char>, FailureKind),
> {
    token_outcome(s, newline_end(s, 0), 0, 0)
}

/// Reads a line ending from the start of `input`, and gives the rest of the input
/// and the line ending.
pub fn process_newline<'a>(input: &'a str) -> (r: Result<(&'a str, &'a str), ParseFailure>)
    ensures
        is_token_outcome(r, spec_process_newline(input@)),
{
    let chars = to_chars(input);
    let end = process_newline_at(chars.as_slice(), 0);
    token_on(input, chars.len(), end, 0, 0)
}

} // verus!
