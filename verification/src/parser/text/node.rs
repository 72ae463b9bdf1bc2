use vstd::prelude::*;
use vstd::string::*;
use crate::parser::failure::{suffix, FailureKind, ParseFailure};
use crate::parser::input::{failure_on, is_node_outcome, rest_from};
use crate::parser::scan::to_chars;
use crate::parser::text::process::{
    block_prefix, block_prefix_chars, block_start, dedent, dedent_lines, process_text,
    process_text_block_at, spec_process_text, text_block_end, unit_chars,
};
use crate::parser::{ContextModel, HsmlProcessContext};

verus! {

/// The text of a tag: the rest of its line, or a block of lines.
#[derive(Debug, PartialEq, Eq)]
pub struct TextNode {
    pub text: String,
}

impl View for TextNode {
    type V = Seq<char>;

    open spec fn view(&self) -> Seq<char> {
        self.text@
    }
}

/// Reads a space and the rest of the line from the start of `input`, and gives
/// what follows the line and the text after the space as a node.
pub fn text_node<'a>(input: &'a str) -> (r: Result<(&'a str, TextNode), ParseFailure>)
    ensures
        is_node_outcome(r, spec_process_text(input@)),
{
    match process_text(input) {
        Ok((rest, text)) => Ok((rest, TextNode { text: String::from_str(text) })),
        Err(e) => Err(e),
    }
}

/// What `text_block_node` gives for the input `s` under the context `c`: what
/// follows the block, and the block's lines without the indentation that the
/// context asks of them.
pub open spec fn spec_text_block_node(s: Seq<char>, c: ContextModel) -> Result<
    (Seq<char>, Seq<char>),
    (Seq<char>, FailureKind),
> {
    let prefix = block_prefix(c.unit, c.level);
    match text_block_end(s, 0, prefix) {
        Ok(end) => Ok((suffix(s, end), dedent(s, block_start(s, 0, prefix), end, prefix))),
        Err(f) => Err((suffix(s, f.at), f.kind)),
    }
}

/// Reads a text block from the start of `input`, and gives what follows its last
/// line and its text as a node. The context is not touched.
pub fn text_block_node<'a>(input: &'a str, context: &mut HsmlProcessContext) -> (r: Result<
    (&'a str, TextNode),
    ParseFailure,
>)
    ensures
        is_node_outcome(r, spec_text_block_node(input@, old(context)@)),
        *final(context) == *old(context),
{
    let chars = to_chars(input);
    let unit = unit_chars(context);
    let prefix = block_prefix_chars(&unit, context.indent_level);
    match process_text_block_at(chars.as_slice(), 0, prefix.as_slice()) {
        Ok((start, end)) => Ok(
            (
                rest_from(input, chars.len(), end),
                TextNode { text: dedent_lines(chars.as_slice(), start, end, prefix.as_slice()) },
            ),
        ),
        Err(f) => Err(failure_on(input, chars.len(), f)),
    }
}

} // verus!
