use vstd::prelude::*;
use crate::parser::failure::{fail, Failure, FailureKind, FailureModel, ParseFailure};
use crate::parser::input::{is_token_outcome, token_on, token_outcome};
use crate::parser::scan::{
    ascii_letter, is_ascii_letter, lemma_run_end, run_end, skip_run, to_chars, CharClass,
};

verus! {

/// Where the tag name that starts at `pos` ends. A tag name is a run of ASCII
/// letters, ASCII digits and `-` that starts with a letter.
pub open spec fn tag_name_end(s: Seq<char>, pos: int) -> Result<int, FailureModel> {
    if pos >= s.len() {
        fail(pos, FailureKind::UnexpectedEndOfInput)
    } else if !is_ascii_letter(s[pos]) {
        fail(pos, FailureKind::MalformedTagName)
    } else {
        Ok(run_end(s, pos, CharClass::TagName))
    }
}

/// Whether an ASCII letter stands at `pos`.
pub fn starts_with_ascii_alphabetic(s: &[char], pos: usize) -> (b: bool)
    ensures
        b == (pos < s@.len() && is_ascii_letter(s@[pos as int])),
{
    pos < s.len() && ascii_letter(s[pos])
}

/// Reads a tag name at `pos`.
pub fn process_tag_at(s: &[char], pos: usize) -> (r: Result<usize, Failure>)
    requires
        pos <= s@.len(),
    ensures
        match r {
            Ok(end) => tag_name_end(s@, pos as int) == Ok::<int, FailureModel>(end as int) && pos
                < end <= s@.len(),
            Err(f) => tag_name_end(s@, pos as int) == Err::<int, FailureModel>(f@) && f.at == pos,
        },
{
    if pos >= s.len() {
        return Err(Failure { at: pos, kind: FailureKind::UnexpectedEndOfInput });
    }
    if !starts_with_ascii_alphabetic(s, pos) {
        return Err(Failure { at: pos, kind: FailureKind::MalformedTagName });
    }
    let end = skip_run(s, pos, CharClass::TagName);
    proof {
        lemma_run_end(s@, pos + 1, CharClass::TagName);
    }
    Ok(end)
}

/// What `process_tag` gives for the input `s`.
pub open spec fn spec_process_tag(s: Seq<char>) -> Result<
    (Seq<char>, Seq<char>),
    (Seq<char>, FailureKind),
> {
    token_outcome(s, tag_name_end(s, 0), 0, 0)
}

/// Reads a tag name from the start of `input`, and gives the rest of the input
/// and the name.
pub fn process_tag<'a>(input: &'a str) -> (r: Result<(&'a str, &'a str), ParseFailure>)
    ensures
        is_token_outcome(r, spec_process_tag(input@)),
{
    let chars = to_chars(input);
    let end = process_tag_at(chars.as_slice(), 0);
    token_on(input, chars.len(), end, 0, 0)
}

} // verus!
