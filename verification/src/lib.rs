use vstd::prelude::*;
use crate::compiler::{compile, render_nodes, HsmlCompileOptions};
use crate::parser::failure::{FailureKind, ParseFailure};
use crate::parser::parse::{parse, spec_parse};

pub mod compiler;
pub mod parser;

verus! {

/// What `compile_content` gives for the source `s`: the output for the nodes of
/// the document, or the failure of reading it.
pub open spec fn spec_compile_content(s: Seq<char>) -> Result<Seq<char>, (Seq<char>, FailureKind)> {
    match spec_parse(s) {
        Ok(nodes) => Ok(render_nodes(nodes)),
        Err(e) => Err(e),
    }
}

/// Reads a document and writes it out, with the default options.
pub fn compile_content(source: &str) -> (r: Result<String, ParseFailure>)
    ensures
        match r {
            Ok(html) => spec_compile_content(source@) == Ok::<_, (Seq<char>, FailureKind)>(html@),
            Err(e) => spec_compile_content(source@) == Err::<Seq<char>, _>(e@),
        },
{
    match parse(source) {
        Ok((_, ast)) => Ok(compile(&ast, &HsmlCompileOptions::default())),
        Err(e) => Err(e),
    }
}

} // verus!
