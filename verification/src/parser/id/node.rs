use vstd::prelude::*;
use vstd::string::*;
use crate::parser::failure::ParseFailure;
use crate::parser::id::process::{process_id, spec_process_id};
use crate::parser::input::is_node_outcome;

verus! {

/// The id of a tag.
#[derive(Debug, PartialEq, Eq)]
pub struct IdNode {
    pub id: String,
}

impl View for IdNode {
    type V = Seq<char>;

    open spec fn view(&self) -> Seq<char> {
        self.id@
    }
}

/// Reads `#` and an identifier from the start of `input`, and gives the rest of
/// the input and the id as a node.
pub fn id_node<'a>(input: &'a str) -> (r: Result<(&'a str, IdNode), ParseFailure>)
    ensures
        is_node_outcome(r, spec_process_id(input@)),
{
    match process_id(input) {
        Ok((rest, id)) => Ok((rest, IdNode { id: String::from_str(id) })),
        Err(e) => Err(e),
    }
}

} // verus!
