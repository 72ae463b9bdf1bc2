use vstd::prelude::*;
use vstd::string::*;
use crate::parser::comment::process::{
    process_dev_comment, process_native_comment, spec_process_dev_comment,
    spec_process_native_comment,
};
use crate::parser::failure::{FailureKind, ParseFailure};
use crate::parser::input::is_node_outcome;

verus! {

/// A comment: what follows its marker on the line, and whether it is left out of
/// the output (`//`) or written into it (`//!`).
#[derive(Debug, PartialEq, Eq)]
pub struct CommentNode {
    pub text: String,
    pub is_dev: bool,
}

/// What a comment is, as plain values.
pub struct CommentModel {
    pub text: Seq<char>,
    pub is_dev: bool,
}

impl View for CommentNode {
    type V = CommentModel;

    open spec fn view(&self) -> CommentModel {
        CommentModel { text: self.text@, is_dev: self.is_dev }
    }
}

/// The outcome of reading a comment, from the outcome of reading its text.
pub open spec fn as_comment(
    r: Result<(Seq<char>, Seq<char>), (Seq<char>, FailureKind)>,
    is_dev: bool,
) -> Result<(Seq<char>, CommentModel), (Seq<char>, FailureKind)> {
    match r {
        Ok((rest, text)) => Ok((rest, CommentModel { text, is_dev })),
        Err(e) => Err(e),
    }
}

/// Reads a `//` comment from the start of `input`, and gives what follows its
/// line and the comment as a node that is left out of the output.
pub fn comment_dev_node<'a>(input: &'a str) -> (r: Result<(&'a str, CommentNode), ParseFailure>)
    ensures
        is_node_outcome(r, as_comment(spec_process_dev_comment(input@), true)),
{
    match process_dev_comment(input) {
        Ok((rest, comment)) => Ok(
            (rest, CommentNode { text: String::from_str(comment), is_dev: true }),
        ),
        Err(e) => Err(e),
    }
}

/// Reads a `//!` comment from the start of `input`, and gives what follows its
/// line and the comment as a node that is written into the output.
pub fn comment_native_node<'a>(input: &'a str) -> (r: Result<(&'a str, CommentNode), ParseFailure>)
    ensures
        is_node_outcome(r, as_comment(spec_process_native_comment(input@), false)),
{
    match process_native_comment(input) {
        Ok((rest, comment)) => Ok(
            (rest, CommentNode { text: String::from_str(comment), is_dev: false }),
        ),
        Err(e) => Err(e),
    }
}

} // verus!
