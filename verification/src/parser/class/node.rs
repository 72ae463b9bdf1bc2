use vstd::prelude::*;
use vstd::string::*;
use crate::parser::class::process::{process_class, spec_process_class};
use crate::parser::failure::ParseFailure;
use crate::parser::input::is_node_outcome;

verus! {

/// One class name of a tag.
#[derive(Debug, PartialEq, Eq)]
pub struct ClassNode {
    pub name: String,
}

impl View for ClassNode {
    type V = Seq<char>;

    open spec fn view(&self) -> Seq<char> {
        self.name@
    }
}

/// Reads `.` and a class name from the start of `input`, and gives the rest of
/// the input and the class as a node.
pub fn class_node<'a>(input: &'a str) -> (r: Result<(&'a str, ClassNode), ParseFailure>)
    ensures
        is_node_outcome(r, spec_process_class(input@)),
{
    match process_class(input) {
        Ok((rest, class_name)) => Ok((rest, ClassNode { name: String::from_str(class_name) })),
        Err(e) => Err(e),
    }
}

} // verus!
