use vstd::prelude::*;
use crate::parser::failure::{fail, Failure, FailureKind, FailureModel, ParseFailure};
use crate::parser::input::{is_token_outcome, token_on, token_outcome};
use crate::parser::scan::{run_end, skip_run, to_chars, CharClass};

verus! {

/// Where the id that starts with the `#` at `pos` ends. The identifier after the
/// `#` is a run of ASCII letters and ASCII digits, and is not empty.
pub open spec fn id_end(s: Seq<char>, pos: int) -> Result<int, FailureModel> {
    if !(0 <= pos < s.len() && s[pos] == '#') {
        fail(pos, FailureKind::UnexpectedToken)
    } else if run_end(s, pos + 1, CharClass::Identifier) == pos + 1 {
        fail(pos + 1, FailureKind::MalformedId)
    } else {
        Ok(run_end(s, pos + 1, CharClass::Identifier))
    }
}

/// Reads an id at `pos`: `#` and an identifier.
pub fn process_id_at(s: &[char], pos: usize) -> (r: Result<usize, Failure>)
    requires
        pos <= s@.len(),
    ensures
        match r {
            Ok(end) => id_end(s@, pos as int) == Ok::<int, FailureModel>(end as int) && pos + 1
                < end <= s@.len(),
            Err(f) => id_end(s@, pos as int) == Err::<int, FailureModel>(f@) && f.at <= s@.len(),
        },
{
    if !(pos < s.len() && s[pos] == '#') {
        return Err(Failure { at: pos, kind: FailureKind::UnexpectedToken });
    }
    let end = skip_run(s, pos + 1, CharClass::Identifier);
    if end == pos + 1 {
        Err(Failure { at: pos + 1, kind: FailureKind::MalformedId })
    } else {
        Ok(end)
    }
}

/// What `process_id` gives for the input `s`.
pub open spec fn spec_process_id(s: Seq<char>) -> Result<
    (Seq<char>, Seq<char>),
    (Seq<char>, FailureKind),
> {
    token_outcome(s, id_end(s, 0), 1, 0)
}

/// Reads `#` and an identifier from the start of `input`, and gives the rest of
/// the input and the identifier.
pub fn process_id<'a>(input: &'a str) -> (r: Result<(&'a str, &'a str), ParseFailure>)
    ensures
        is_token_outcome(r, spec_process_id(input@)),
{
    let chars = to_chars(input);
    let end = process_id_at(chars.as_slice(), 0);
    token_on(input, chars.len(), end, 1, 0)
}

} // verus!
