use vstd::prelude::*;
use crate::parser::failure::{fail, Failure, FailureKind, FailureModel, ParseFailure};
use crate::parser::input::{is_token_outcome, token_on, token_outcome};
use crate::parser::scan::{
    find_closing, is_line_ending_at, lemma_find_closing, line_ending_at, search_closing, to_chars,
};

verus! {

/// Whether a class name cannot go on at `pos`: there stands `#`, `.`, `(`, a
/// space, a tab or a line ending.
pub open spec fn class_stops_at(s: Seq<char>, pos: int) -> bool {
    0 <= pos < s.len() && (s[pos] == '#' || s[pos] == '.' || s[pos] == '(' || s[pos] == ' '
        || s[pos] == '\t' || line_ending_at(s, pos))
}

/// Where the class name that goes on at `pos` ends: at the first character at
/// which it stops, or at the end of the input. From a `[` up to the first `]`
/// without a backslash before it nothing ends the name; a `[` that is never closed
/// is a failure.
pub open spec fn class_name_end(s: Seq<char>, pos: int) -> Result<int, FailureModel>
    decreases s.len() - pos,
{
    if pos < 0 || pos >= s.len() || class_stops_at(s, pos) {
        Ok(pos)
    } else if s[pos] == '[' {
        let closing = find_closing(s, pos + 1, ']');
        if closing is None {
            fail(pos, FailureKind::UnterminatedClassBracket)
        } else if pos < closing->0 < s.len() {
            class_name_end(s, closing->0 + 1)
        } else {
            Ok(pos)
        }
    } else {
        class_name_end(s, pos + 1)
    }
}

/// Where the class that starts with the `.` at `pos` ends.
pub open spec fn class_end(s: Seq<char>, pos: int) -> Result<int, FailureModel> {
    if 0 <= pos < s.len() && s[pos] == '.' {
        class_name_end(s, pos + 1)
    } else {
        fail(pos, FailureKind::UnexpectedToken)
    }
}

/// Says whether a class name cannot go on at `pos`.
pub fn class_stops(s: &[char], pos: usize) -> (b: bool)
    requires
        pos <= s@.len(),
    ensures
        b == class_stops_at(s@, pos as int),
{
    pos < s.len() && (s[pos] == '#' || s[pos] == '.' || s[pos] == '(' || s[pos] == ' '
        || s[pos] == '\t' || is_line_ending_at(s, pos))
}

/// Reads a class at `pos`: `.` and a class name.
pub fn process_class_at(s: &[char], pos: usize) -> (r: Result<usize, Failure>)
    requires
        pos <= s@.len(),
    ensures
        match r {
            Ok(end) => class_end(s@, pos as int) == Ok::<int, FailureModel>(end as int) && pos
                < end <= s@.len(),
            Err(f) => class_end(s@, pos as int) == Err::<int, FailureModel>(f@) && f.at
                <= s@.len(),
        },
{
    if !(pos < s.len() && s[pos] == '.') {
        return Err(Failure { at: pos, kind: FailureKind::UnexpectedToken });
    }
    let mut i: usize = pos + 1;
    while i < s.len() && !class_stops(s, i)
        invariant
            pos < i <= s@.len(),
            s@[pos as int] == '.',
            class_name_end(s@, pos + 1) == class_name_end(s@, i as int),
        decreases s@.len() - i,
    {
        if s[i] == '[' {
            proof {
                lemma_find_closing(s@, i + 1, ']');
            }
            match search_closing(s, i + 1, ']') {
                Some(closing) => {
                    i = closing + 1;
                },
                None => {
                    return Err(Failure { at: i, kind: FailureKind::UnterminatedClassBracket });
                },
            }
        } else {
            i += 1;
        }
    }
    Ok(i)
}

/// What `process_class` gives for the input `s`.
pub open spec fn spec_process_class(s: Seq<char>) -> Result<
    (Seq<char>, Seq<char>),
    (Seq<char>, FailureKind),
> {
    token_outcome(s, class_end(s, 0), 1, 0)
}

/// Reads `.` and a class name from the start of `input`, and gives the rest of
/// the input and the name.
pub fn process_class<'a>(input: &'a str) -> (r: Result<(&'a str, &'a str), ParseFailure>)
    ensures
        is_token_outcome(r, spec_process_class(input@)),
{
    let chars = to_chars(input);
    let end = process_class_at(chars.as_slice(), 0);
    token_on(input, chars.len(), end, 1, 0)
}

} // verus!
